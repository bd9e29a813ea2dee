//! One synchronisation run: present the plan, then execute it unless this
//! is a dry run.
use vstd::prelude::*;
use crate::executor::PlanExecutor;
use crate::plan::SyncPlan;
use crate::present::{plan_message, print_plan};

verus! {

/// The options of a synchronisation run.
pub struct SyncArgs {
    /// Compute and show the plan, but apply nothing.
    pub dry_run: bool,
    /// A main branch that takes precedence over every other source.
    pub main_override: Option<String>,
    /// Push the current branch after updating it.
    pub push: bool,
    /// Rebase without asking.
    pub non_interactive: bool,
    /// Where the configuration file is, if any.
    pub config_path: Option<String>,
}

/// What a run does with a plan: the text that presents it, and the
/// executor that applies it, which a dry run does not have.
pub struct SyncRun {
    pub report: String,
    pub executor: Option<PlanExecutor>,
}

/// Starts a run of `plan`. The presentation is always produced; an
/// executor is handed out exactly when this is not a dry run, so that a dry
/// run cannot apply anything.
pub fn run_sync(args: &SyncArgs, plan: SyncPlan) -> (r: SyncRun)
    ensures
        r.report@ == plan_message(plan@),
        args.dry_run <==> r.executor is None,
        match r.executor {
            Some(x) => {
                &&& x.wf()
                &&& x.plan@ == plan@
                &&& x.position == 0
                &&& x.skipped@.len() == 0
                &&& x.failure is None
            },
            None => true,
        },
{
    let report = print_plan(&plan);
    if args.dry_run {
        SyncRun { report, executor: None }
    } else {
        SyncRun { report, executor: Some(PlanExecutor::new(plan)) }
    }
}

} // verus!
