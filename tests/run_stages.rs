use kuramoto::run::{Action, Run, Stage};

#[test]
fn new_run_is_uninitialized() {
    let r = Run::new();
    assert_eq!(r.stage, Stage::Uninitialized);
    assert_eq!(r.completed, 0);
}

#[test]
fn run_steps_the_configured_number_of_times() {
    let mut r = Run::new();
    r.initialize(3);
    assert_eq!(r.stage, Stage::Initialized);
    assert_eq!(r.loops, 3);
    r.start();
    assert_eq!(r.stage, Stage::Running);
    let mut series: Vec<u64> = Vec::new();
    while r.next_action() == Action::Step {
        series.push(r.completed);
        r.step_done();
    }
    assert_eq!(series, vec![0, 1, 2]);
    assert_eq!(r.stage, Stage::Done);
    assert_eq!(r.completed, 3);
    assert_eq!(r.next_action(), Action::Emit);
}

#[test]
fn run_of_no_steps_is_done_at_start() {
    let mut r = Run::new();
    r.initialize(0);
    r.start();
    assert_eq!(r.stage, Stage::Done);
    assert_eq!(r.next_action(), Action::Emit);
}

#[test]
fn step_done_on_last_step_finishes_the_run() {
    let mut r = Run::new();
    r.initialize(2);
    r.start();
    r.step_done();
    assert_eq!(r.stage, Stage::Running);
    assert_eq!(r.next_action(), Action::Step);
    r.step_done();
    assert_eq!(r.stage, Stage::Done);
}
