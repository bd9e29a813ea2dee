//! Execution: applying a plan's operations in order, with fail-fast
//! handling for history-changing operations and best-effort pushes.
use vstd::prelude::*;
use crate::error::SyncError;
use crate::plan::{OpView, SyncPlan};

verus! {

/// What the executor wants next.
#[derive(Clone, Copy, Debug, PartialEq, Eq, Structural)]
pub enum ExecStep {
    /// Perform the operation at this index of the plan and report back.
    Run(usize),
    /// Every operation has been applied (pushes possibly skipped).
    Completed,
    /// An operation failed and the rest of the plan was abandoned.
    Aborted,
}

/// The operation that stopped a run, by its index in the plan, and why.
pub struct StepFailure {
    pub index: usize,
    pub error: SyncError,
}

/// Applies a plan one operation at a time. The caller performs the
/// operation that [`PlanExecutor::next_step`] names and hands its outcome
/// to [`PlanExecutor::report`].
pub struct PlanExecutor {
    pub plan: SyncPlan,
    /// Index of the next operation to perform.
    pub position: usize,
    /// Indices of the pushes that failed and were skipped.
    pub skipped: Vec<usize>,
    /// The failure that aborted the run, if any.
    pub failure: Option<StepFailure>,
}

impl PlanExecutor {
    /// The executor has not run past the end of its plan; every skipped
    /// index is a push already passed, in increasing order; a failure sits
    /// at the current position, on an operation that is not a push.
    pub open spec fn wf(&self) -> bool {
        &&& self.position <= self.plan@.len()
        &&& forall|k: int|
            0 <= k < self.skipped@.len() ==> {
                &&& #[trigger] self.skipped@[k] < self.position
                &&& self.plan@[self.skipped@[k] as int] is PushIfFastForward
            }
        &&& forall|k: int, l: int|
            0 <= k < l < self.skipped@.len() ==> self.skipped@[k] < self.skipped@[l]
        &&& match self.failure {
            Some(f) => {
                &&& f.index == self.position
                &&& self.position < self.plan@.len()
                &&& !(self.plan@[self.position as int] is PushIfFastForward)
            },
            None => true,
        }
    }

    /// The step that follows from the progress so far.
    pub open spec fn step_spec(&self) -> ExecStep {
        if self.failure is Some {
            ExecStep::Aborted
        } else if self.position >= self.plan@.len() {
            ExecStep::Completed
        } else {
            ExecStep::Run(self.position)
        }
    }

    /// An executor for `plan` that has applied nothing yet.
    pub fn new(plan: SyncPlan) -> (r: PlanExecutor)
        ensures
            r.wf(),
            r.plan@ == plan@,
            r.position == 0,
            r.skipped@.len() == 0,
            r.failure is None,
    {
        PlanExecutor { plan, position: 0, skipped: Vec::new(), failure: None }
    }

    /// Decides what comes next: the operation to perform, or the end.
    pub fn next_step(&self) -> (r: ExecStep)
        ensures
            r == self.step_spec(),
    {
        if self.failure.is_some() {
            ExecStep::Aborted
        } else if self.position >= self.plan.len() {
            ExecStep::Completed
        } else {
            ExecStep::Run(self.position)
        }
    }

    /// Takes the outcome of the operation at `position`. Success moves on.
    /// A failed push is recorded as skipped and the run moves on; any other
    /// failure aborts the run at that operation.
    pub fn report(&mut self, outcome: Result<(), SyncError>)
        requires
            old(self).wf(),
            old(self).step_spec() is Run,
        ensures
            final(self).wf(),
            final(self).plan@ == old(self).plan@,
            match outcome {
                Ok(()) => {
                    &&& final(self).position == old(self).position + 1
                    &&& final(self).skipped@ == old(self).skipped@
                    &&& final(self).failure is None
                },
                Err(e) => if old(self).plan@[old(self).position as int] is PushIfFastForward {
                    &&& final(self).position == old(self).position + 1
                    &&& final(self).skipped@ == old(self).skipped@.push(old(self).position)
                    &&& final(self).failure is None
                } else {
                    &&& final(self).position == old(self).position
                    &&& final(self).skipped@ == old(self).skipped@
                    &&& final(self).failure == Some(StepFailure { index: old(self).position, error: e })
                },
            },
    {
        // The position is below the plan's length, a `usize`: it can advance.
        let len = self.plan.len();
        proof {
            assert(self.position < len);
        }
        match outcome {
            Ok(()) => {
                self.position = self.position + 1;
            },
            Err(e) => {
                let tolerated = self.plan.ops[self.position].is_push();
                if tolerated {
                    self.skipped.push(self.position);
                    self.position = self.position + 1;
                } else {
                    self.failure = Some(StepFailure { index: self.position, error: e });
                }
            },
        }
    }
}

} // verus!
