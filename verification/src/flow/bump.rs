//! Bumping the version of the project: the version files are rewritten and
//! the project is built to lock the new version.

use crate::commands::{BumpKind, VersionSpec, VersionSpecView};
use crate::config::Config;
use crate::flow::gather::{GatherFlow, GatherFlowView, Gathered, GatheredView};
use crate::flow::rewrite::{RewriteFlow, RewriteFlowView};
use crate::flow::{FlowError, FlowErrorView, Reply, ReplyView, Request, RequestView, Step, StepView};
use crate::pargit::{Pargit, PargitView, ProjectType};
use crate::release::{files_to_bump, get_version_files_to_bump};
use vstd::prelude::*;

verus! {

/// A bump that is under way, by what it waits for.
#[derive(Debug, PartialEq, Eq)]
pub enum BumpFlow {
    /// The version files are gathered.
    Gathering { kind: BumpKind, inner: GatherFlow },
    /// The version files are rewritten.
    Rewriting { inner: RewriteFlow },
    /// The build that locks the new version.
    Building,
}

/// What a [`BumpFlow`] stands for.
pub enum BumpFlowView {
    Gathering { kind: BumpKind, inner: GatherFlowView },
    Rewriting { inner: RewriteFlowView },
    Building,
}

impl View for BumpFlow {
    type V = BumpFlowView;

    open spec fn view(&self) -> BumpFlowView {
        match self {
            BumpFlow::Gathering { kind, inner } => BumpFlowView::Gathering {
                kind: *kind,
                inner: inner@,
            },
            BumpFlow::Rewriting { inner } => BumpFlowView::Rewriting { inner: inner@ },
            BumpFlow::Building => BumpFlowView::Building,
        }
    }
}

impl DeepView for BumpFlow {
    type V = BumpFlowView;

    open spec fn deep_view(&self) -> BumpFlowView {
        self@
    }
}

impl BumpFlowView {
    /// A step of the gathering as a step of the bump. Once the files are
    /// known, those to bump are rewritten, each relative to its own version;
    /// it is a failure where there is none.
    pub open spec fn gathered(
        pargit: PargitView,
        kind: BumpKind,
        step: StepView<GatherFlowView, GatheredView>,
    ) -> StepView<BumpFlowView, ()> {
        match step {
            StepView::Ask(inner, request) => StepView::Ask(
                BumpFlowView::Gathering { kind, inner },
                request,
            ),
            StepView::Done(gathered) => match files_to_bump(gathered.files, gathered.chosen) {
                Ok(files) => if files.len() == 0 {
                    StepView::Failed(FlowErrorView::NoVersionFiles)
                } else {
                    BumpFlowView::rewriting(
                        pargit,
                        RewriteFlowView::begun(files, VersionSpecView::Bump(kind)),
                    )
                },
                Err(reason) => StepView::Failed(FlowErrorView::Resolve { reason }),
            },
            StepView::Failed(e) => StepView::Failed(e),
            StepView::Stranded(e) => StepView::Failed(e),
        }
    }

    /// A step of the rewriting as a step of the bump. The build follows the
    /// last file.
    pub open spec fn rewriting(pargit: PargitView, step: StepView<RewriteFlowView, ()>) -> StepView<
        BumpFlowView,
        (),
    > {
        match step {
            StepView::Ask(inner, request) => StepView::Ask(
                BumpFlowView::Rewriting { inner },
                request,
            ),
            StepView::Done(_) => match pargit.type_ {
                Some(ProjectType::Rust) => StepView::Ask(
                    BumpFlowView::Building,
                    RequestView::Verify { command: Config::compilation_text(pargit.config) },
                ),
                None => StepView::Done(()),
            },
            StepView::Failed(e) => StepView::Failed(e),
            StepView::Stranded(e) => StepView::Failed(e),
        }
    }

    /// The first step of a bump of `kind`.
    pub open spec fn begun(pargit: PargitView, kind: BumpKind) -> StepView<BumpFlowView, ()> {
        BumpFlowView::gathered(pargit, kind, GatherFlowView::begun(pargit, true))
    }

    /// The step after `reply`.
    pub open spec fn resumed(self, pargit: PargitView, reply: ReplyView) -> StepView<
        BumpFlowView,
        (),
    > {
        match self {
            BumpFlowView::Gathering { kind, inner } => BumpFlowView::gathered(
                pargit,
                kind,
                inner.resumed(pargit, reply),
            ),
            BumpFlowView::Rewriting { inner } => BumpFlowView::rewriting(
                pargit,
                inner.resumed(reply),
            ),
            BumpFlowView::Building => match reply {
                ReplyView::Done => StepView::Done(()),
                ReplyView::Failed { message } => StepView::Failed(
                    FlowErrorView::BuildFailed { message },
                ),
                _ => StepView::Failed(FlowErrorView::UnexpectedReply),
            },
        }
    }
}

impl BumpFlow {
    fn gathered(pargit: &Pargit, kind: BumpKind, step: Step<GatherFlow, Gathered>) -> (r: Step<
        BumpFlow,
        (),
    >)
        ensures
            r@ == BumpFlowView::gathered(pargit@, kind, step@),
    {
        match step {
            Step::Ask(inner, request) => Step::Ask(BumpFlow::Gathering { kind, inner }, request),
            Step::Done(gathered) => {
                let Gathered { files, chosen } = gathered;
                match get_version_files_to_bump(files, chosen) {
                    Ok(files) => {
                        if files.len() == 0 {
                            Step::Failed(FlowError::NoVersionFiles)
                        } else {
                            BumpFlow::rewriting(
                                pargit,
                                RewriteFlow::begin(files, VersionSpec::Bump(kind)),
                            )
                        }
                    },
                    Err(reason) => Step::Failed(FlowError::Resolve { reason }),
                }
            },
            Step::Failed(e) => Step::Failed(e),
            Step::Stranded(e) => Step::Failed(e),
        }
    }

    fn rewriting(pargit: &Pargit, step: Step<RewriteFlow, ()>) -> (r: Step<BumpFlow, ()>)
        ensures
            r@ == BumpFlowView::rewriting(pargit@, step@),
    {
        match step {
            Step::Ask(inner, request) => Step::Ask(BumpFlow::Rewriting { inner }, request),
            Step::Done(_) => match pargit.type_ {
                Some(ProjectType::Rust) => Step::Ask(
                    BumpFlow::Building,
                    Request::Verify { command: pargit.config.compilation_command() },
                ),
                None => Step::Done(()),
            },
            Step::Failed(e) => Step::Failed(e),
            Step::Stranded(e) => Step::Failed(e),
        }
    }

    /// Begins a bump of `kind`.
    pub fn begin(pargit: &Pargit, kind: BumpKind) -> (r: Step<BumpFlow, ()>)
        ensures
            r@ == BumpFlowView::begun(pargit@, kind),
    {
        BumpFlow::gathered(pargit, kind, GatherFlow::begin(pargit, true))
    }

    /// Goes on with the bump after `reply`.
    pub fn resume(self, pargit: &Pargit, reply: Reply) -> (r: Step<BumpFlow, ()>)
        ensures
            r@ == self@.resumed(pargit@, reply@),
    {
        match self {
            BumpFlow::Gathering { kind, inner } => BumpFlow::gathered(
                pargit,
                kind,
                inner.resume(pargit, reply),
            ),
            BumpFlow::Rewriting { inner } => BumpFlow::rewriting(pargit, inner.resume(reply)),
            BumpFlow::Building => match reply {
                Reply::Done => Step::Done(()),
                Reply::Failed { message } => Step::Failed(FlowError::BuildFailed { message }),
                _ => Step::Failed(FlowError::UnexpectedReply),
            },
        }
    }
}

} // verus!
