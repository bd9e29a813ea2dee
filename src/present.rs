//! Rendering a plan as fixed-format text, one line per operation.
use vstd::prelude::*;
use crate::plan::{OpView, SyncOp, SyncPlan};

verus! {

/// The line that presents one operation, newline included.
pub open spec fn op_line(op: OpView) -> Seq<char> {
    match op {
        OpView::FetchPrune { remote } => "• fetch --prune "@ + remote + "\n"@,
        OpView::FastForward { branch } => "• fast-forward "@ + branch + " from its upstream\n"@,
        OpView::RebaseOnto { src_branch, onto_branch, .. } => "• rebase "@ + src_branch
            + " onto "@ + onto_branch + "\n"@,
        OpView::PushIfFastForward { remote, branch } => "• push "@ + branch + " -> "@ + remote
            + "/"@ + branch + " (ff-only)\n"@,
    }
}

/// The lines of all operations, in plan order.
pub open spec fn plan_text(ops: Seq<OpView>) -> Seq<char>
    decreases ops.len(),
{
    if ops.len() == 0 {
        Seq::empty()
    } else {
        plan_text(ops.drop_last()) + op_line(ops.last())
    }
}

/// The message that announces a plan before it is (possibly) executed.
pub open spec fn plan_message(ops: Seq<OpView>) -> Seq<char> {
    "sync plan:\n"@ + plan_text(ops)
}

/// Appends the line of `op` to `out`.
pub fn append_op_line(out: &mut String, op: &SyncOp)
    ensures
        final(out)@ == old(out)@ + op_line(op@),
{
    match op {
        SyncOp::FetchPrune { remote } => {
            out.append("• fetch --prune ");
            out.append(remote.as_str());
            out.append("\n");
        },
        SyncOp::FastForward { branch } => {
            out.append("• fast-forward ");
            out.append(branch.as_str());
            out.append(" from its upstream\n");
        },
        SyncOp::RebaseOnto { src_branch, onto_branch, .. } => {
            out.append("• rebase ");
            out.append(src_branch.as_str());
            out.append(" onto ");
            out.append(onto_branch.as_str());
            out.append("\n");
        },
        SyncOp::PushIfFastForward { remote, branch } => {
            out.append("• push ");
            out.append(branch.as_str());
            out.append(" -> ");
            out.append(remote.as_str());
            out.append("/");
            out.append(branch.as_str());
            out.append(" (ff-only)\n");
        },
    }
}

impl SyncPlan {
    /// The plan as text: one line per operation, in order.
    pub fn to_string(&self) -> (r: String)
        ensures
            r@ == plan_text(self@),
    {
        let mut out = String::new();
        let mut i: usize = 0;
        while i < self.ops.len()
            invariant
                0 <= i <= self.ops@.len(),
                self@.len() == self.ops@.len(),
                out@ == plan_text(self@.take(i as int)),
            decreases self.ops@.len() - i,
        {
            append_op_line(&mut out, &self.ops[i]);
            proof {
                assert(self@.take(i + 1).drop_last() =~= self@.take(i as int));
            }
            i = i + 1;
        }
        proof {
            assert(self@.take(i as int) =~= self@);
        }
        out
    }
}

/// The log message that announces `plan`: a header line, then its text.
pub fn print_plan(plan: &SyncPlan) -> (r: String)
    ensures
        r@ == plan_message(plan@),
{
    let mut out = String::from_str("sync plan:\n");
    out.append(plan.to_string().as_str());
    out
}

} // verus!
