use vstd::prelude::*;

verus! {

/// Where a run stands.
#[derive(PartialEq, Eq, Structural, Clone, Copy, Debug)]
pub enum Stage {
    Uninitialized,
    Initialized,
    Running,
    Done,
}

/// What the loop that integrates must do next.
#[derive(PartialEq, Eq, Structural, Clone, Copy, Debug)]
pub enum Action {
    /// Advance the state by one step and record its measurement.
    Step,
    /// Emit the recorded series: the run is over.
    Emit,
}

/// The driver of a run of a fixed number of integration steps: the run is
/// configured with its step count, started, advanced one completed step at
/// a time, and done once every step is completed.
#[derive(Clone, Copy, Debug)]
pub struct Run {
    pub stage: Stage,
    pub loops: u64,
    pub completed: u64,
}

impl Run {
    /// The run's invariant: no more steps are completed than configured, none
    /// before the run starts, some remain while it runs, and every one is
    /// completed once it is done.
    pub open spec fn wf(&self) -> bool {
        &&& self.completed <= self.loops
        &&& (self.stage == Stage::Uninitialized || self.stage == Stage::Initialized) ==> self.completed
            == 0
        &&& self.stage == Stage::Running ==> self.completed < self.loops
        &&& self.stage == Stage::Done ==> self.completed == self.loops
    }

    /// A run that is not configured yet.
    pub fn new() -> (r: Run)
        ensures
            r.wf(),
            r.stage == Stage::Uninitialized,
            r.completed == 0,
    {
        Run { stage: Stage::Uninitialized, loops: 0, completed: 0 }
    }

    /// Fixes the number of steps; the population is sampled by then.
    pub fn initialize(&mut self, loops: u64)
        requires
            old(self).wf(),
            old(self).stage == Stage::Uninitialized,
        ensures
            final(self).wf(),
            final(self).stage == Stage::Initialized,
            final(self).loops == loops,
            final(self).completed == 0,
    {
        self.stage = Stage::Initialized;
        self.loops = loops;
        self.completed = 0;
    }

    /// Enters the loop; a run of no steps is done at once.
    pub fn start(&mut self)
        requires
            old(self).wf(),
            old(self).stage == Stage::Initialized,
        ensures
            final(self).wf(),
            final(self).stage == (if old(self).loops == 0 {
                Stage::Done
            } else {
                Stage::Running
            }),
            final(self).loops == old(self).loops,
            final(self).completed == 0,
    {
        if self.loops == 0 {
            self.stage = Stage::Done;
        } else {
            self.stage = Stage::Running;
        }
    }

    /// What to do next: a step while steps remain, else emit.
    pub fn next_action(&self) -> (r: Action)
        requires
            self.wf(),
            self.stage == Stage::Running || self.stage == Stage::Done,
        ensures
            r == Action::Step <==> self.stage == Stage::Running,
            r == Action::Emit <==> self.stage == Stage::Done,
    {
        if self.stage == Stage::Running {
            Action::Step
        } else {
            Action::Emit
        }
    }

    /// Records one completed step; the run is done when the last one is.
    pub fn step_done(&mut self)
        requires
            old(self).wf(),
            old(self).stage == Stage::Running,
        ensures
            final(self).wf(),
            final(self).loops == old(self).loops,
            final(self).completed == old(self).completed + 1,
            final(self).stage == (if final(self).completed == final(self).loops {
                Stage::Done
            } else {
                Stage::Running
            }),
    {
        self.completed = self.completed + 1;
        if self.completed == self.loops {
            self.stage = Stage::Done;
        }
    }
}

} // verus!
