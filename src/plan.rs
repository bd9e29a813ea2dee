//! The operations of a synchronisation plan and the plan itself.
use vstd::prelude::*;

verus! {

/// One repository operation of a plan.
pub enum SyncOp {
    /// Fetch from `remote`, pruning remote-tracking refs that vanished.
    FetchPrune { remote: String },
    /// Move local `branch` forward to its upstream tip.
    FastForward { branch: String },
    /// Replay `src_branch` onto the tip of `onto_branch`.
    RebaseOnto { src_branch: String, onto_branch: String, non_interactive: bool },
    /// Push `branch` to `remote`, accepted only as a fast-forward there.
    PushIfFastForward { remote: String, branch: String },
}

/// The mathematical value of a [`SyncOp`]: names as character sequences.
pub enum OpView {
    FetchPrune { remote: Seq<char> },
    FastForward { branch: Seq<char> },
    RebaseOnto { src_branch: Seq<char>, onto_branch: Seq<char>, non_interactive: bool },
    PushIfFastForward { remote: Seq<char>, branch: Seq<char> },
}

impl View for SyncOp {
    type V = OpView;

    open spec fn view(&self) -> OpView {
        match self {
            SyncOp::FetchPrune { remote } => OpView::FetchPrune { remote: remote@ },
            SyncOp::FastForward { branch } => OpView::FastForward { branch: branch@ },
            SyncOp::RebaseOnto { src_branch, onto_branch, non_interactive } => OpView::RebaseOnto {
                src_branch: src_branch@,
                onto_branch: onto_branch@,
                non_interactive: *non_interactive,
            },
            SyncOp::PushIfFastForward { remote, branch } => OpView::PushIfFastForward {
                remote: remote@,
                branch: branch@,
            },
        }
    }
}

impl SyncOp {
    /// A copy of this operation with the same names and flags.
    pub fn duplicate(&self) -> (r: SyncOp)
        ensures
            r@ == self@,
    {
        match self {
            SyncOp::FetchPrune { remote } => SyncOp::FetchPrune { remote: remote.clone() },
            SyncOp::FastForward { branch } => SyncOp::FastForward { branch: branch.clone() },
            SyncOp::RebaseOnto { src_branch, onto_branch, non_interactive } => SyncOp::RebaseOnto {
                src_branch: src_branch.clone(),
                onto_branch: onto_branch.clone(),
                non_interactive: *non_interactive,
            },
            SyncOp::PushIfFastForward { remote, branch } => SyncOp::PushIfFastForward {
                remote: remote.clone(),
                branch: branch.clone(),
            },
        }
    }

    /// Whether this is a push, the one kind of operation whose failure is
    /// tolerated during execution.
    pub fn is_push(&self) -> (r: bool)
        ensures
            r == (self@ is PushIfFastForward),
    {
        match self {
            SyncOp::PushIfFastForward { .. } => true,
            _ => false,
        }
    }
}

/// An ordered sequence of operations, built by appending only.
pub struct SyncPlan {
    pub ops: Vec<SyncOp>,
}

/// The views of a sequence of operations.
pub open spec fn ops_view(ops: Seq<SyncOp>) -> Seq<OpView> {
    ops.map_values(|o: SyncOp| o@)
}

impl View for SyncPlan {
    type V = Seq<OpView>;

    open spec fn view(&self) -> Seq<OpView> {
        ops_view(self.ops@)
    }
}

impl SyncPlan {
    /// An empty plan.
    pub fn new() -> (r: SyncPlan)
        ensures
            r@ == Seq::<OpView>::empty(),
    {
        SyncPlan { ops: Vec::new() }
    }

    /// Appends `op` after every operation already in the plan.
    pub fn push(&mut self, op: SyncOp)
        ensures
            final(self)@ == old(self)@.push(op@),
    {
        self.ops.push(op);
        proof {
            assert(ops_view(self.ops@) =~= ops_view(old(self).ops@).push(op@));
        }
    }

    /// The number of operations in the plan.
    pub fn len(&self) -> (r: usize)
        ensures
            r == self@.len(),
    {
        self.ops.len()
    }
}

} // verus!
