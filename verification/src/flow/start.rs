//! Starting an object: its branch is created and checked out.

use crate::flow::{failure_of, reply_failure, FlowError, FlowErrorView, Reply, ReplyView, Request, RequestView, Step, StepView};
use crate::object_kind::ObjectKind;
use crate::pargit::{Pargit, PargitView};
use vstd::prelude::*;

verus! {

/// What a start waits for.
#[derive(Clone, Copy, Debug, PartialEq, Eq, Structural)]
pub enum StartPoint {
    /// Whether the branch exists already.
    Finding,
    /// The creation of the branch.
    Creating,
    /// The checkout of the branch.
    Switching,
}

/// A start that is under way.
#[derive(Debug, PartialEq, Eq)]
pub struct StartFlow {
    pub kind: ObjectKind,
    pub name: String,
    pub from_ref: Option<String>,
    pub point: StartPoint,
}

/// What a [`StartFlow`] stands for.
pub struct StartFlowView {
    pub kind: ObjectKind,
    pub name: Seq<char>,
    pub from_ref: Option<Seq<char>>,
    pub point: StartPoint,
}

impl View for StartFlow {
    type V = StartFlowView;

    open spec fn view(&self) -> StartFlowView {
        StartFlowView {
            kind: self.kind,
            name: self.name@,
            from_ref: self.from_ref.deep_view(),
            point: self.point,
        }
    }
}

impl DeepView for StartFlow {
    type V = StartFlowView;

    open spec fn deep_view(&self) -> StartFlowView {
        self@
    }
}

impl StartFlowView {
    /// The branch that is started.
    pub open spec fn branch(self) -> Seq<char> {
        self.kind.branch_text(self.name)
    }

    /// The first step of a start: it asks whether the branch exists.
    pub open spec fn begun(kind: ObjectKind, name: Seq<char>, from_ref: Option<Seq<char>>) -> StepView<
        StartFlowView,
        (),
    > {
        StepView::Ask(
            StartFlowView { kind, name, from_ref, point: StartPoint::Finding },
            RequestView::FindBranch { name: kind.branch_text(name) },
        )
    }

    /// The step after `reply`.
    ///
    /// A branch that exists already ends the start before anything is
    /// created. Else the branch is created at the start point of its kind,
    /// or at `from_ref` where one was given, and then checked out.
    pub open spec fn resumed(self, pargit: PargitView, reply: ReplyView) -> StepView<
        StartFlowView,
        (),
    > {
        match self.point {
            StartPoint::Finding => match reply {
                ReplyView::Done => StepView::Failed(
                    FlowErrorView::AlreadyInProgress { kind: self.kind, name: self.name },
                ),
                _ => StepView::Ask(
                    StartFlowView { point: StartPoint::Creating, ..self },
                    RequestView::CreateBranch {
                        name: self.branch(),
                        start_point: self.kind.start_point_text(pargit.config, self.from_ref),
                    },
                ),
            },
            StartPoint::Creating => match reply {
                ReplyView::Done => StepView::Ask(
                    StartFlowView { point: StartPoint::Switching, ..self },
                    RequestView::SwitchTo { branch: self.branch() },
                ),
                _ => StepView::Failed(failure_of(reply)),
            },
            StartPoint::Switching => match reply {
                ReplyView::Done => StepView::Done(()),
                _ => StepView::Failed(failure_of(reply)),
            },
        }
    }
}

impl StartFlow {
    /// Begins the start of the object `name` of `kind`.
    pub fn begin(kind: ObjectKind, name: &str, from_ref: Option<&str>) -> (r: Step<StartFlow, ()>)
        ensures
            r@ == StartFlowView::begun(
                kind,
                name@,
                match from_ref {
                    Some(s) => Some(s@),
                    None => None,
                },
            ),
    {
        let from_ref = match from_ref {
            Some(s) => Some(String::from_str(s)),
            None => None,
        };
        let flow = StartFlow {
            kind,
            name: String::from_str(name),
            from_ref,
            point: StartPoint::Finding,
        };
        Step::Ask(flow, Request::FindBranch { name: kind.branch_name(name) })
    }

    /// Goes on with the start after `reply`.
    pub fn resume(self, pargit: &Pargit, reply: Reply) -> (r: Step<StartFlow, ()>)
        ensures
            r@ == self@.resumed(pargit@, reply@),
    {
        let branch = self.kind.branch_name(self.name.as_str());
        match self.point {
            StartPoint::Finding => match reply {
                Reply::Done => Step::Failed(
                    FlowError::AlreadyInProgress { kind: self.kind, name: self.name },
                ),
                _ => {
                    let start_point = match &self.from_ref {
                        Some(r) => self.kind.get_start_point(&pargit.config, Some(r.as_str())),
                        None => self.kind.get_start_point(&pargit.config, None),
                    };
                    Step::Ask(
                        StartFlow { point: StartPoint::Creating, ..self },
                        Request::CreateBranch { name: branch, start_point },
                    )
                },
            },
            StartPoint::Creating => match reply {
                Reply::Done => Step::Ask(
                    StartFlow { point: StartPoint::Switching, ..self },
                    Request::SwitchTo { branch },
                ),
                _ => Step::Failed(reply_failure(reply)),
            },
            StartPoint::Switching => match reply {
                Reply::Done => Step::Done(()),
                _ => Step::Failed(reply_failure(reply)),
            },
        }
    }
}

} // verus!
