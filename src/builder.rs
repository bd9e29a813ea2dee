//! Planning: which operations a run needs, decided from what the repository
//! reports about the main and current branches.
use vstd::prelude::*;
use crate::config::ResolvedConfig;
use crate::error::{ErrorKind, SyncError};
use crate::plan::{OpView, SyncOp, SyncPlan};

verus! {

/// The plan for a repository in which `main_ff` tells whether `main`
/// already contains its remote tip, `current` is the checked-out branch and
/// `current_is_ancestor` whether it is contained in `main`.
///
/// Fetch always comes first; `main` is fast-forwarded when it lags; a
/// current branch other than `main` that carries history of its own is
/// rebased onto `main`; with `push`, the current branch is pushed once.
pub open spec fn planned_ops(
    main: Seq<char>,
    remote: Seq<char>,
    push: bool,
    non_interactive: bool,
    main_ff: bool,
    current: Seq<char>,
    current_is_ancestor: bool,
) -> Seq<OpView> {
    let fetched = seq![OpView::FetchPrune { remote }];
    let forwarded = if main_ff {
        fetched
    } else {
        fetched.push(OpView::FastForward { branch: main })
    };
    let rebased = if current != main && !current_is_ancestor {
        forwarded.push(
            OpView::RebaseOnto { src_branch: current, onto_branch: main, non_interactive },
        )
    } else {
        forwarded
    };
    if push {
        rebased.push(OpView::PushIfFastForward { remote, branch: current })
    } else {
        rebased
    }
}

/// Lays out the plan for the given observations of the repository.
pub fn assemble_plan(
    config: &ResolvedConfig,
    push: bool,
    non_interactive: bool,
    main_ff: bool,
    current: &String,
    current_is_ancestor: bool,
) -> (r: SyncPlan)
    ensures
        r@ == planned_ops(
            config.main@,
            config.remote@,
            push,
            non_interactive,
            main_ff,
            current@,
            current_is_ancestor,
        ),
{
    let mut plan = SyncPlan::new();
    plan.push(SyncOp::FetchPrune { remote: config.remote.clone() });
    if !main_ff {
        plan.push(SyncOp::FastForward { branch: config.main.clone() });
    }
    let on_main = *current == config.main;
    if !on_main && !current_is_ancestor {
        plan.push(
            SyncOp::RebaseOnto {
                src_branch: current.clone(),
                onto_branch: config.main.clone(),
                non_interactive,
            },
        );
    }
    if push {
        plan.push(SyncOp::PushIfFastForward { remote: config.remote.clone(), branch: current.clone() });
    }
    plan
}

/// A question the planner asks of the repository.
pub enum Probe {
    /// Does local `branch` already contain its remote-tracking tip?
    IsFastForwardable { branch: String },
    /// Which branch is checked out?
    CurrentBranch,
    /// Is the history of `child` fully contained in `parent`?
    IsAncestor { child: String, parent: String },
}

/// The mathematical value of a [`Probe`].
pub enum ProbeView {
    IsFastForwardable { branch: Seq<char> },
    CurrentBranch,
    IsAncestor { child: Seq<char>, parent: Seq<char> },
}

impl View for Probe {
    type V = ProbeView;

    open spec fn view(&self) -> ProbeView {
        match self {
            Probe::IsFastForwardable { branch } => ProbeView::IsFastForwardable { branch: branch@ },
            Probe::CurrentBranch => ProbeView::CurrentBranch,
            Probe::IsAncestor { child, parent } => ProbeView::IsAncestor {
                child: child@,
                parent: parent@,
            },
        }
    }
}

/// What the planner wants next: an answer to a probe, or it is done.
pub enum BuildStep {
    Query(Probe),
    Planned(SyncPlan),
    Failed(SyncError),
}

/// The mathematical value of a [`BuildStep`].
pub enum BuildStepView {
    Query(ProbeView),
    Planned(Seq<OpView>),
    Failed(ErrorKind, Seq<char>),
}

impl View for BuildStep {
    type V = BuildStepView;

    open spec fn view(&self) -> BuildStepView {
        match self {
            BuildStep::Query(p) => BuildStepView::Query(p@),
            BuildStep::Planned(plan) => BuildStepView::Planned(plan@),
            BuildStep::Failed(e) => BuildStepView::Failed(e.kind, e.detail@),
        }
    }
}

/// Builds a plan from the repository's answers, asked in a fixed order:
/// whether `main` is fast-forwardable, which branch is current, and (when
/// that is not `main`) whether it is an ancestor of `main`. The first
/// failed answer aborts planning; no partial plan is ever produced.
pub struct PlanBuilder {
    pub config: ResolvedConfig,
    pub push: bool,
    pub non_interactive: bool,
    pub main_ff: Option<bool>,
    pub current: Option<String>,
    pub current_is_ancestor: Option<bool>,
    pub failure: Option<SyncError>,
}

impl PlanBuilder {
    /// The step that follows from the answers gathered so far.
    pub open spec fn step_spec(&self) -> BuildStepView {
        let main = self.config.main@;
        match self.failure {
            Some(e) => BuildStepView::Failed(e.kind, e.detail@),
            None => match self.main_ff {
                None => BuildStepView::Query(ProbeView::IsFastForwardable { branch: main }),
                Some(main_ff) => match self.current {
                    None => BuildStepView::Query(ProbeView::CurrentBranch),
                    Some(current) => if current@ != main && self.current_is_ancestor is None {
                        BuildStepView::Query(ProbeView::IsAncestor { child: current@, parent: main })
                    } else {
                        BuildStepView::Planned(
                            planned_ops(
                                main,
                                self.config.remote@,
                                self.push,
                                self.non_interactive,
                                main_ff,
                                current@,
                                current@ == main || self.current_is_ancestor == Some(true),
                            ),
                        )
                    },
                },
            },
        }
    }

    /// A planner for `config` that has asked nothing yet.
    pub fn new(config: ResolvedConfig, push: bool, non_interactive: bool) -> (r: PlanBuilder)
        ensures
            r.config == config,
            r.push == push,
            r.non_interactive == non_interactive,
            r.main_ff is None,
            r.current is None,
            r.current_is_ancestor is None,
            r.failure is None,
    {
        PlanBuilder {
            config,
            push,
            non_interactive,
            main_ff: None,
            current: None,
            current_is_ancestor: None,
            failure: None,
        }
    }

    /// Decides what comes next: the next probe, the finished plan, or the
    /// failure that ended planning.
    pub fn next_step(&self) -> (r: BuildStep)
        ensures
            r@ == self.step_spec(),
    {
        match &self.failure {
            Some(e) => BuildStep::Failed(e.duplicate()),
            None => match self.main_ff {
                None => BuildStep::Query(Probe::IsFastForwardable { branch: self.config.main.clone() }),
                Some(main_ff) => match &self.current {
                    None => BuildStep::Query(Probe::CurrentBranch),
                    Some(current) => {
                        let on_main = *current == self.config.main;
                        if !on_main && self.current_is_ancestor.is_none() {
                            BuildStep::Query(
                                Probe::IsAncestor {
                                    child: current.clone(),
                                    parent: self.config.main.clone(),
                                },
                            )
                        } else {
                            let contained = on_main || match self.current_is_ancestor {
                                Some(a) => a,
                                None => false,
                            };
                            BuildStep::Planned(
                                assemble_plan(
                                    &self.config,
                                    self.push,
                                    self.non_interactive,
                                    main_ff,
                                    current,
                                    contained,
                                ),
                            )
                        }
                    },
                },
            },
        }
    }

    /// Takes the answer to whether `main` is fast-forwardable.
    pub fn record_main_check(&mut self, answer: Result<bool, SyncError>)
        ensures
            final(self).config == old(self).config,
            final(self).push == old(self).push,
            final(self).non_interactive == old(self).non_interactive,
            final(self).current == old(self).current,
            final(self).current_is_ancestor == old(self).current_is_ancestor,
            match answer {
                Ok(v) => final(self).main_ff == Some(v) && final(self).failure == old(self).failure,
                Err(e) => final(self).main_ff == old(self).main_ff && final(self).failure == Some(e),
            },
    {
        match answer {
            Ok(v) => self.main_ff = Some(v),
            Err(e) => self.failure = Some(e),
        }
    }

    /// Takes the answer to which branch is current.
    pub fn record_current_branch(&mut self, answer: Result<String, SyncError>)
        ensures
            final(self).config == old(self).config,
            final(self).push == old(self).push,
            final(self).non_interactive == old(self).non_interactive,
            final(self).main_ff == old(self).main_ff,
            final(self).current_is_ancestor == old(self).current_is_ancestor,
            match answer {
                Ok(v) => final(self).current == Some(v) && final(self).failure == old(self).failure,
                Err(e) => final(self).current == old(self).current && final(self).failure == Some(e),
            },
    {
        match answer {
            Ok(v) => self.current = Some(v),
            Err(e) => self.failure = Some(e),
        }
    }

    /// Takes the answer to whether the current branch is an ancestor of
    /// `main`.
    pub fn record_ancestry(&mut self, answer: Result<bool, SyncError>)
        ensures
            final(self).config == old(self).config,
            final(self).push == old(self).push,
            final(self).non_interactive == old(self).non_interactive,
            final(self).main_ff == old(self).main_ff,
            final(self).current == old(self).current,
            match answer {
                Ok(v) => final(self).current_is_ancestor == Some(v) && final(self).failure == old(
                    self,
                ).failure,
                Err(e) => final(self).current_is_ancestor == old(self).current_is_ancestor
                    && final(self).failure == Some(e),
            },
    {
        match answer {
            Ok(v) => self.current_is_ancestor = Some(v),
            Err(e) => self.failure = Some(e),
        }
    }
}

} // verus!
