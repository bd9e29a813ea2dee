use git_sync::executor::ExecStep;
use git_sync::plan::{SyncOp, SyncPlan};
use git_sync::sync::{run_sync, SyncArgs};

fn args(dry_run: bool) -> SyncArgs {
    SyncArgs {
        dry_run,
        main_override: None,
        push: false,
        non_interactive: false,
        config_path: None,
    }
}

fn plan() -> SyncPlan {
    let mut plan = SyncPlan::new();
    plan.push(SyncOp::FetchPrune {
        remote: "origin".to_string(),
    });
    plan
}

#[test]
fn dry_run_only_presents() {
    let run = run_sync(&args(true), plan());
    assert!(run.executor.is_none());
    assert_eq!(run.report, "sync plan:\n• fetch --prune origin\n");
}

#[test]
fn real_run_presents_and_executes() {
    let run = run_sync(&args(false), plan());
    assert_eq!(run.report, "sync plan:\n• fetch --prune origin\n");
    let exec = run.executor.expect("an executor");
    assert_eq!(exec.next_step(), ExecStep::Run(0));
}
