//! Deleting an object: its remote branch, if it has one, and its local branch.

use crate::flow::{
    failure_of, name_from_reply, named_by, reply_failure, FlowError, FlowErrorView, Reply,
    ReplyView, Request, RequestView, Step, StepView,
};
use crate::object_kind::ObjectKind;
use crate::pargit::{Pargit, PargitView};
use crate::text::{same_text, split_once, split_once_text};
use vstd::prelude::*;

verus! {

/// What a deletion waits for.
#[derive(Clone, Copy, Debug, PartialEq, Eq, Structural)]
pub enum DeletePoint {
    /// The branch that is checked out, which names the object.
    Naming,
    /// Whether the branch exists.
    Finding,
    /// The upstream of the branch.
    Upstream,
    /// The deletion of the remote branch.
    RemoteDeleting,
    /// The branch that is checked out, which cannot be deleted.
    Current,
    /// The checkout of the develop branch.
    Switching,
    /// The deletion of the local branch.
    Deleting,
}

/// A deletion that is under way.
#[derive(Debug, PartialEq, Eq)]
pub struct DeleteFlow {
    pub kind: ObjectKind,
    /// The name of the object; empty until it is known.
    pub name: String,
    pub point: DeletePoint,
}

/// What a [`DeleteFlow`] stands for.
pub struct DeleteFlowView {
    pub kind: ObjectKind,
    pub name: Seq<char>,
    pub point: DeletePoint,
}

impl View for DeleteFlow {
    type V = DeleteFlowView;

    open spec fn view(&self) -> DeleteFlowView {
        DeleteFlowView { kind: self.kind, name: self.name@, point: self.point }
    }
}

impl DeepView for DeleteFlow {
    type V = DeleteFlowView;

    open spec fn deep_view(&self) -> DeleteFlowView {
        self@
    }
}

impl DeleteFlowView {
    /// The branch that is deleted.
    pub open spec fn branch(self) -> Seq<char> {
        self.kind.branch_text(self.name)
    }

    /// The deletion at another point.
    pub open spec fn at(self, point: DeletePoint) -> DeleteFlowView {
        DeleteFlowView { point, ..self }
    }

    /// The step that looks for the branch of the object `name`.
    pub open spec fn finding(kind: ObjectKind, name: Seq<char>) -> StepView<DeleteFlowView, ()> {
        StepView::Ask(
            DeleteFlowView { kind, name, point: DeletePoint::Finding },
            RequestView::FindBranch { name: kind.branch_text(name) },
        )
    }

    /// The first step of a deletion: with a name it looks for the branch,
    /// without one it asks which branch is checked out.
    pub open spec fn begun(kind: ObjectKind, name: Option<Seq<char>>) -> StepView<
        DeleteFlowView,
        (),
    > {
        match name {
            Some(name) => DeleteFlowView::finding(kind, name),
            None => StepView::Ask(
                DeleteFlowView { kind, name: Seq::empty(), point: DeletePoint::Naming },
                RequestView::CurrentBranch,
            ),
        }
    }

    /// The step after `reply`.
    ///
    /// A branch that does not exist ends the deletion before anything is
    /// changed. A branch with an upstream loses its remote branch first. A
    /// branch that is checked out is left for the develop branch before it
    /// is deleted.
    pub open spec fn resumed(self, pargit: PargitView, reply: ReplyView) -> StepView<
        DeleteFlowView,
        (),
    > {
        match self.point {
            DeletePoint::Naming => match named_by(self.kind, reply) {
                Ok(name) => DeleteFlowView::finding(self.kind, name),
                Err(e) => StepView::Failed(e),
            },
            DeletePoint::Finding => match reply {
                ReplyView::Done => StepView::Ask(
                    self.at(DeletePoint::Upstream),
                    RequestView::Upstream { branch: self.branch() },
                ),
                ReplyView::Missing => StepView::Failed(
                    FlowErrorView::BranchNotFound { branch: self.branch() },
                ),
                _ => StepView::Failed(failure_of(reply)),
            },
            DeletePoint::Upstream => match reply {
                ReplyView::Text(upstream) => match split_once_text(upstream, '/') {
                    Some((remote, branch)) => StepView::Ask(
                        self.at(DeletePoint::RemoteDeleting),
                        RequestView::DeleteRemoteBranch { remote, branch },
                    ),
                    None => StepView::Failed(FlowErrorView::UnexpectedReply),
                },
                _ => StepView::Ask(self.at(DeletePoint::Current), RequestView::CurrentBranch),
            },
            DeletePoint::RemoteDeleting => match reply {
                ReplyView::Done => StepView::Ask(
                    self.at(DeletePoint::Current),
                    RequestView::CurrentBranch,
                ),
                _ => StepView::Failed(failure_of(reply)),
            },
            DeletePoint::Current => match reply {
                ReplyView::Text(current) => if current == self.branch() {
                    StepView::Ask(
                        self.at(DeletePoint::Switching),
                        RequestView::SwitchTo { branch: pargit.config.develop_branch_name },
                    )
                } else {
                    StepView::Ask(
                        self.at(DeletePoint::Deleting),
                        RequestView::DeleteBranch { name: self.branch() },
                    )
                },
                _ => StepView::Failed(failure_of(reply)),
            },
            DeletePoint::Switching => match reply {
                ReplyView::Done => StepView::Ask(
                    self.at(DeletePoint::Deleting),
                    RequestView::DeleteBranch { name: self.branch() },
                ),
                _ => StepView::Failed(failure_of(reply)),
            },
            DeletePoint::Deleting => match reply {
                ReplyView::Done => StepView::Done(()),
                ReplyView::Missing => StepView::Failed(
                    FlowErrorView::BranchNotFound { branch: self.branch() },
                ),
                _ => StepView::Failed(failure_of(reply)),
            },
        }
    }
}

impl DeleteFlow {
    fn finding(kind: ObjectKind, name: String) -> (r: Step<DeleteFlow, ()>)
        ensures
            r@ == DeleteFlowView::finding(kind, name@),
    {
        let branch = kind.branch_name(name.as_str());
        Step::Ask(
            DeleteFlow { kind, name, point: DeletePoint::Finding },
            Request::FindBranch { name: branch },
        )
    }

    /// Begins the deletion of the object `name` of `kind`, or of the object
    /// whose branch is checked out where no name is given.
    pub fn begin(kind: ObjectKind, name: Option<String>) -> (r: Step<DeleteFlow, ()>)
        ensures
            r@ == DeleteFlowView::begun(kind, name.deep_view()),
    {
        match name {
            Some(name) => DeleteFlow::finding(kind, name),
            None => Step::Ask(
                DeleteFlow { kind, name: String::new(), point: DeletePoint::Naming },
                Request::CurrentBranch,
            ),
        }
    }

    /// Goes on with the deletion after `reply`.
    pub fn resume(self, pargit: &Pargit, reply: Reply) -> (r: Step<DeleteFlow, ()>)
        ensures
            r@ == self@.resumed(pargit@, reply@),
    {
        let branch = self.kind.branch_name(self.name.as_str());
        match self.point {
            DeletePoint::Naming => match name_from_reply(self.kind, reply) {
                Ok(name) => DeleteFlow::finding(self.kind, name),
                Err(e) => Step::Failed(e),
            },
            DeletePoint::Finding => match reply {
                Reply::Done => Step::Ask(
                    DeleteFlow { point: DeletePoint::Upstream, ..self },
                    Request::Upstream { branch },
                ),
                Reply::Missing => Step::Failed(FlowError::BranchNotFound { branch }),
                _ => Step::Failed(reply_failure(reply)),
            },
            DeletePoint::Upstream => match reply {
                Reply::Text(upstream) => match split_once(upstream.as_str(), '/') {
                    Some((remote, branch)) => Step::Ask(
                        DeleteFlow { point: DeletePoint::RemoteDeleting, ..self },
                        Request::DeleteRemoteBranch { remote, branch },
                    ),
                    None => Step::Failed(FlowError::UnexpectedReply),
                },
                _ => Step::Ask(
                    DeleteFlow { point: DeletePoint::Current, ..self },
                    Request::CurrentBranch,
                ),
            },
            DeletePoint::RemoteDeleting => match reply {
                Reply::Done => Step::Ask(
                    DeleteFlow { point: DeletePoint::Current, ..self },
                    Request::CurrentBranch,
                ),
                _ => Step::Failed(reply_failure(reply)),
            },
            DeletePoint::Current => match reply {
                Reply::Text(current) => {
                    if same_text(current.as_str(), branch.as_str()) {
                        Step::Ask(
                            DeleteFlow { point: DeletePoint::Switching, ..self },
                            Request::SwitchTo { branch: pargit.config.develop_branch_name.clone() },
                        )
                    } else {
                        Step::Ask(
                            DeleteFlow { point: DeletePoint::Deleting, ..self },
                            Request::DeleteBranch { name: branch },
                        )
                    }
                },
                _ => Step::Failed(reply_failure(reply)),
            },
            DeletePoint::Switching => match reply {
                Reply::Done => Step::Ask(
                    DeleteFlow { point: DeletePoint::Deleting, ..self },
                    Request::DeleteBranch { name: branch },
                ),
                _ => Step::Failed(reply_failure(reply)),
            },
            DeletePoint::Deleting => match reply {
                Reply::Done => Step::Done(()),
                Reply::Missing => Step::Failed(FlowError::BranchNotFound { branch }),
                _ => Step::Failed(reply_failure(reply)),
            },
        }
    }
}

} // verus!
