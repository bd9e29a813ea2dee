//! Properties that every plan laid out by the planner has.
use vstd::prelude::*;
use crate::builder::{planned_ops, PlanBuilder};
use crate::plan::OpView;

verus! {

/// Position of an operation kind in the fixed order of a plan: fetch,
/// fast-forward, rebase, push.
pub open spec fn op_rank(op: OpView) -> int {
    match op {
        OpView::FetchPrune { .. } => 0,
        OpView::FastForward { .. } => 1,
        OpView::RebaseOnto { .. } => 2,
        OpView::PushIfFastForward { .. } => 3,
    }
}

/// The operations come in the fixed order of their kinds.
pub open spec fn kinds_in_order(ops: Seq<OpView>) -> bool {
    forall|i: int, j: int| 0 <= i < j < ops.len() ==> op_rank(ops[i]) <= op_rank(ops[j])
}

/// Every plan starts with the fetch from the remote.
pub proof fn lemma_fetch_comes_first(
    main: Seq<char>,
    remote: Seq<char>,
    push: bool,
    non_interactive: bool,
    main_ff: bool,
    current: Seq<char>,
    current_is_ancestor: bool,
)
    ensures
        ({
            let ops = planned_ops(main, remote, push, non_interactive, main_ff, current, current_is_ancestor);
            ops.len() > 0 && ops[0] == OpView::FetchPrune { remote }
        }),
{
}

/// A main branch that already contains its remote tip is not fast-forwarded.
pub proof fn lemma_up_to_date_main_not_forwarded(
    main: Seq<char>,
    remote: Seq<char>,
    push: bool,
    non_interactive: bool,
    current: Seq<char>,
    current_is_ancestor: bool,
)
    ensures
        ({
            let ops = planned_ops(main, remote, push, non_interactive, true, current, current_is_ancestor);
            forall|i: int| 0 <= i < ops.len() ==> !(#[trigger] ops[i] is FastForward)
        }),
{
}

/// A current branch that is already an ancestor of main is not rebased.
pub proof fn lemma_contained_branch_not_rebased(
    main: Seq<char>,
    remote: Seq<char>,
    push: bool,
    non_interactive: bool,
    main_ff: bool,
    current: Seq<char>,
)
    ensures
        ({
            let ops = planned_ops(main, remote, push, non_interactive, main_ff, current, true);
            forall|i: int| 0 <= i < ops.len() ==> !(#[trigger] ops[i] is RebaseOnto)
        }),
{
}

/// Without the push flag a plan pushes nothing.
pub proof fn lemma_no_push_unless_asked(
    main: Seq<char>,
    remote: Seq<char>,
    non_interactive: bool,
    main_ff: bool,
    current: Seq<char>,
    current_is_ancestor: bool,
)
    ensures
        ({
            let ops = planned_ops(main, remote, false, non_interactive, main_ff, current, current_is_ancestor);
            forall|i: int| 0 <= i < ops.len() ==> !(#[trigger] ops[i] is PushIfFastForward)
        }),
{
}

/// With the push flag, on the main branch, a plan holds exactly one push:
/// main to the remote, as its last operation.
pub proof fn lemma_single_push_of_main(
    main: Seq<char>,
    remote: Seq<char>,
    non_interactive: bool,
    main_ff: bool,
    current_is_ancestor: bool,
)
    ensures
        ({
            let ops = planned_ops(main, remote, true, non_interactive, main_ff, main, current_is_ancestor);
            &&& ops.len() > 0
            &&& ops.last() == OpView::PushIfFastForward { remote, branch: main }
            &&& forall|i: int| 0 <= i < ops.len() - 1 ==> !(#[trigger] ops[i] is PushIfFastForward)
        }),
{
}

/// The operations of every plan come in the order fetch, fast-forward,
/// rebase, push.
pub proof fn lemma_kinds_in_order(
    main: Seq<char>,
    remote: Seq<char>,
    push: bool,
    non_interactive: bool,
    main_ff: bool,
    current: Seq<char>,
    current_is_ancestor: bool,
)
    ensures
        kinds_in_order(planned_ops(main, remote, push, non_interactive, main_ff, current, current_is_ancestor)),
{
}

/// Two planners that received the same answers from the repository decide
/// the same next step, and so lay out identical plans.
pub proof fn lemma_planning_deterministic(a: PlanBuilder, b: PlanBuilder)
    requires
        a.config.main@ == b.config.main@,
        a.config.remote@ == b.config.remote@,
        a.push == b.push,
        a.non_interactive == b.non_interactive,
        a.main_ff == b.main_ff,
        a.current is Some <==> b.current is Some,
        a.current matches Some(x) ==> b.current matches Some(y) && x@ == y@,
        a.current_is_ancestor == b.current_is_ancestor,
        a.failure is None,
        b.failure is None,
    ensures
        a.step_spec() == b.step_spec(),
{
}

} // verus!
