use git_sync::plan::{SyncOp, SyncPlan};
use git_sync::present::print_plan;

#[test]
fn test_sync_plan_new() {
    let plan = SyncPlan::new();
    assert_eq!(plan.ops.len(), 0);
}

#[test]
fn test_sync_plan_push() {
    let mut plan = SyncPlan::new();
    plan.push(SyncOp::FetchPrune {
        remote: "origin".to_string(),
    });
    assert_eq!(plan.ops.len(), 1);
}

#[test]
fn test_sync_plan_display_fetch_prune() {
    let mut plan = SyncPlan::new();
    plan.push(SyncOp::FetchPrune {
        remote: "origin".to_string(),
    });
    let output = plan.to_string();
    assert_eq!(output, "• fetch --prune origin\n");
}

#[test]
fn test_sync_plan_display_fast_forward() {
    let mut plan = SyncPlan::new();
    plan.push(SyncOp::FastForward {
        branch: "main".to_string(),
    });
    let output = plan.to_string();
    assert_eq!(output, "• fast-forward main from its upstream\n");
}

#[test]
fn test_sync_plan_display_rebase_onto() {
    let mut plan = SyncPlan::new();
    plan.push(SyncOp::RebaseOnto {
        src_branch: "feature".to_string(),
        onto_branch: "main".to_string(),
        non_interactive: false,
    });
    let output = plan.to_string();
    assert_eq!(output, "• rebase feature onto main\n");
}

#[test]
fn test_sync_plan_display_push_if_fast_forward() {
    let mut plan = SyncPlan::new();
    plan.push(SyncOp::PushIfFastForward {
        remote: "origin".to_string(),
        branch: "feature".to_string(),
    });
    let output = plan.to_string();
    assert_eq!(output, "• push feature -> origin/feature (ff-only)\n");
}

#[test]
fn test_sync_plan_display_multiple_ops() {
    let mut plan = SyncPlan::new();
    plan.push(SyncOp::FetchPrune {
        remote: "origin".to_string(),
    });
    plan.push(SyncOp::FastForward {
        branch: "main".to_string(),
    });
    plan.push(SyncOp::RebaseOnto {
        src_branch: "feature".to_string(),
        onto_branch: "main".to_string(),
        non_interactive: true,
    });
    let output = plan.to_string();
    assert_eq!(
        output,
        "• fetch --prune origin\n\
         • fast-forward main from its upstream\n\
         • rebase feature onto main\n"
    );
}

#[test]
fn empty_plan_renders_as_empty_text() {
    assert_eq!(SyncPlan::new().to_string(), "");
}

#[test]
fn plan_message_has_header_then_lines() {
    let mut plan = SyncPlan::new();
    plan.push(SyncOp::FetchPrune {
        remote: "upstream".to_string(),
    });
    assert_eq!(print_plan(&plan), "sync plan:\n• fetch --prune upstream\n");
}

#[test]
fn duplicate_keeps_every_field() {
    let op = SyncOp::RebaseOnto {
        src_branch: "topic".to_string(),
        onto_branch: "trunk".to_string(),
        non_interactive: true,
    };
    match op.duplicate() {
        SyncOp::RebaseOnto {
            src_branch,
            onto_branch,
            non_interactive,
        } => {
            assert_eq!(src_branch, "topic");
            assert_eq!(onto_branch, "trunk");
            assert!(non_interactive);
        }
        _ => panic!("variant changed"),
    }
    assert!(SyncOp::PushIfFastForward {
        remote: "o".to_string(),
        branch: "b".to_string()
    }
    .is_push());
    assert!(!SyncOp::FastForward {
        branch: "b".to_string()
    }
    .is_push());
}
