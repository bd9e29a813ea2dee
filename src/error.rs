//! The kinds of failure that planning and execution report.
use vstd::prelude::*;

verus! {

/// What went wrong, by category.
#[derive(Clone, Copy, Debug, PartialEq, Eq, Structural)]
pub enum ErrorKind {
    /// The working copy could not be located or opened.
    RepositoryDiscovery,
    /// A branch could not be resolved: a detached head or an unknown name.
    BranchResolution,
    /// No common history point could be found between two tips.
    AncestryComputation,
    /// A fetch or push failed in transport.
    Network,
    /// A rebase stopped on a conflict and was aborted.
    RebaseConflict,
}

/// A failure with its category and a human-readable detail.
pub struct SyncError {
    pub kind: ErrorKind,
    pub detail: String,
}

impl SyncError {
    /// A failure of `kind` described by `detail`.
    pub fn new(kind: ErrorKind, detail: String) -> (r: SyncError)
        ensures
            r.kind == kind,
            r.detail@ == detail@,
    {
        SyncError { kind, detail }
    }

    /// A copy of this failure.
    pub fn duplicate(&self) -> (r: SyncError)
        ensures
            r.kind == self.kind,
            r.detail@ == self.detail@,
    {
        SyncError { kind: self.kind, detail: self.detail.clone() }
    }
}

} // verus!
