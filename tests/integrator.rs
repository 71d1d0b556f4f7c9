use kuramoto::driver::simulate;
use kuramoto::fields::{Drift, Linear, ZeroField};
use kuramoto::rk4::runge_kutta;
use kuramoto::vector::{add_vec, multiple_vec};

#[test]
fn add_vec_adds_elementwise() {
    assert_eq!(add_vec(&vec![1i64, 2, 3], &vec![10i64, -20, 30]), vec![11, -18, 33]);
}

#[test]
fn add_vec_of_empty_vectors_is_empty() {
    let e: Vec<i64> = Vec::new();
    assert_eq!(add_vec(&e, &e), Vec::<i64>::new());
}

#[test]
fn add_vec_wraps_on_overflow() {
    assert_eq!(add_vec(&vec![i64::MAX], &vec![1i64]), vec![i64::MIN]);
}

#[test]
fn multiple_vec_scales_every_element() {
    assert_eq!(multiple_vec(&vec![1i64, -2, 3], 4), vec![4, -8, 12]);
}

#[test]
fn multiple_vec_wraps_on_overflow() {
    assert_eq!(multiple_vec(&vec![i64::MAX], 2), vec![-2]);
}

#[test]
fn adding_a_vector_scaled_by_zero_gives_back_the_first() {
    let a = vec![7i64, -3, i64::MAX, i64::MIN];
    let b = vec![i64::MIN, 5, -9, i64::MAX];
    assert_eq!(add_vec(&a, &multiple_vec(&b, 0)), a);
}

#[test]
fn zero_field_step_keeps_the_state() {
    let field = ZeroField { dim: 3 };
    for dt in [0i64, 1, 6, -7, 1000, i64::MAX] {
        assert_eq!(runge_kutta(&field, vec![5i64, -3, 0], dt), vec![5, -3, 0]);
    }
}

#[test]
fn step_of_an_empty_state_is_empty() {
    let field = ZeroField { dim: 0 };
    assert_eq!(runge_kutta(&field, Vec::<i64>::new(), 6), Vec::<i64>::new());
}

#[test]
fn linear_field_step_combines_four_stages() {
    let field = Linear { rate: 1i64, dim: 1 };
    assert_eq!(runge_kutta(&field, vec![1i64], 6), vec![115]);
}

#[test]
fn linear_field_step_on_two_coordinates() {
    let field = Linear { rate: 2i64, dim: 2 };
    assert_eq!(runge_kutta(&field, vec![1i64, -1], 6), vec![1237, -1237]);
}

#[test]
fn negative_step_rounds_half_and_sixth_toward_zero() {
    let field = Linear { rate: 1i64, dim: 1 };
    assert_eq!(runge_kutta(&field, vec![1i64], -7), vec![38]);
}

#[test]
fn drift_step_adds_frequency_times_step() {
    let field = Drift { frequencies: vec![1i64, -2, 3] };
    assert_eq!(runge_kutta(&field, vec![0i64, 10, 100], 6), vec![6, -2, 118]);
    assert_eq!(runge_kutta(&field, vec![0i64, 10, 100], 12), vec![12, -14, 136]);
}

#[test]
fn drift_trajectory_is_linear_in_time() {
    let field = Drift { frequencies: vec![1i64, -2, 3] };
    let states = simulate(&field, vec![0i64, 10, 100], 6, 3);
    assert_eq!(states, vec![vec![6, -2, 118], vec![12, -14, 136], vec![18, -26, 154]]);
}

#[test]
fn simulate_records_one_state_per_step() {
    let field = Linear { rate: 1i64, dim: 1 };
    let states = simulate(&field, vec![1i64], 6, 2);
    assert_eq!(states.len(), 2);
    assert_eq!(states[0], vec![115]);
    assert_eq!(states[1], runge_kutta(&field, vec![115i64], 6));
}

#[test]
fn simulate_with_no_steps_records_nothing() {
    let field = ZeroField { dim: 1 };
    assert!(simulate(&field, vec![3i64], 6, 0).is_empty());
}

#[test]
fn drift_closed_form_wraps_like_the_integers() {
    let field = Drift { frequencies: vec![i64::MAX] };
    assert_eq!(runge_kutta(&field, vec![0i64], 6), vec![-6]);
}

#[test]
fn drift_with_step_below_six_does_not_move() {
    let field = Drift { frequencies: vec![5i64] };
    assert_eq!(runge_kutta(&field, vec![2i64], 5), vec![2]);
}
