//! Finishing an object that is no release: its branch is merged into the
//! destination branch and deleted.

use crate::flow::delete::{DeleteFlow, DeleteFlowView};
use crate::flow::{
    failure_of, name_from_reply, named_by, reply_failure, Reply, ReplyView, Request, RequestView, Step, StepView,
};
use crate::object_kind::ObjectKind;
use crate::pargit::{Pargit, PargitView};
use crate::text::joined;
use vstd::prelude::*;

verus! {

/// A finish that is under way, by what it waits for.
#[derive(Debug, PartialEq, Eq)]
pub enum FinishFlow {
    /// The branch that is checked out, which names the object.
    Naming { kind: ObjectKind, dest: String },
    /// The checkout of the destination branch.
    Switching { kind: ObjectKind, name: String },
    /// The merge of the object's branch.
    Merging { kind: ObjectKind, name: String },
    /// The deletion of the object.
    Deleting { inner: DeleteFlow },
}

/// What a [`FinishFlow`] stands for.
pub enum FinishFlowView {
    Naming { kind: ObjectKind, dest: Seq<char> },
    Switching { kind: ObjectKind, name: Seq<char> },
    Merging { kind: ObjectKind, name: Seq<char> },
    Deleting { inner: DeleteFlowView },
}

impl View for FinishFlow {
    type V = FinishFlowView;

    open spec fn view(&self) -> FinishFlowView {
        match self {
            FinishFlow::Naming { kind, dest } => FinishFlowView::Naming { kind: *kind, dest: dest@ },
            FinishFlow::Switching { kind, name } => FinishFlowView::Switching {
                kind: *kind,
                name: name@,
            },
            FinishFlow::Merging { kind, name } => FinishFlowView::Merging {
                kind: *kind,
                name: name@,
            },
            FinishFlow::Deleting { inner } => FinishFlowView::Deleting { inner: inner@ },
        }
    }
}

impl DeepView for FinishFlow {
    type V = FinishFlowView;

    open spec fn deep_view(&self) -> FinishFlowView {
        self@
    }
}

/// The message of the commit that merges `branch`.
pub open spec fn merge_message(branch: Seq<char>) -> Seq<char> {
    "Merge "@ + branch
}

impl FinishFlowView {
    /// The step that checks the destination branch out.
    pub open spec fn switching(kind: ObjectKind, name: Seq<char>, dest: Seq<char>) -> StepView<
        FinishFlowView,
        (),
    > {
        StepView::Ask(
            FinishFlowView::Switching { kind, name },
            RequestView::SwitchTo { branch: dest },
        )
    }

    /// A step of the deletion as a step of the finish.
    pub open spec fn deleting(step: StepView<DeleteFlowView, ()>) -> StepView<FinishFlowView, ()> {
        match step {
            StepView::Ask(inner, request) => StepView::Ask(
                FinishFlowView::Deleting { inner },
                request,
            ),
            StepView::Done(_) => StepView::Done(()),
            StepView::Failed(e) => StepView::Failed(e),
            StepView::Stranded(e) => StepView::Stranded(e),
        }
    }

    /// The first step of a finish: with a name it checks the destination
    /// branch out, without one it asks which branch is checked out.
    pub open spec fn begun(kind: ObjectKind, name: Option<Seq<char>>, dest: Seq<char>) -> StepView<
        FinishFlowView,
        (),
    > {
        match name {
            Some(name) => FinishFlowView::switching(kind, name, dest),
            None => StepView::Ask(FinishFlowView::Naming { kind, dest }, RequestView::CurrentBranch),
        }
    }

    /// The step after `reply`.
    ///
    /// A merge that fails ends the finish with what the merge reported;
    /// nothing is deleted then.
    pub open spec fn resumed(self, pargit: PargitView, reply: ReplyView) -> StepView<
        FinishFlowView,
        (),
    > {
        match self {
            FinishFlowView::Naming { kind, dest } => match named_by(kind, reply) {
                Ok(name) => FinishFlowView::switching(kind, name, dest),
                Err(e) => StepView::Failed(e),
            },
            FinishFlowView::Switching { kind, name } => match reply {
                ReplyView::Done => StepView::Ask(
                    FinishFlowView::Merging { kind, name },
                    RequestView::Merge {
                        branch: kind.branch_text(name),
                        message: merge_message(kind.branch_text(name)),
                    },
                ),
                _ => StepView::Failed(failure_of(reply)),
            },
            FinishFlowView::Merging { kind, name } => match reply {
                ReplyView::Done => FinishFlowView::deleting(DeleteFlowView::begun(kind, Some(name))),
                _ => StepView::Failed(failure_of(reply)),
            },
            FinishFlowView::Deleting { inner } => FinishFlowView::deleting(
                inner.resumed(pargit, reply),
            ),
        }
    }
}

impl FinishFlow {
    fn deleting(step: Step<DeleteFlow, ()>) -> (r: Step<FinishFlow, ()>)
        ensures
            r@ == FinishFlowView::deleting(step@),
    {
        match step {
            Step::Ask(inner, request) => Step::Ask(FinishFlow::Deleting { inner }, request),
            Step::Done(_) => Step::Done(()),
            Step::Failed(e) => Step::Failed(e),
            Step::Stranded(e) => Step::Stranded(e),
        }
    }

    /// Begins the finish of the object `name` of `kind`, or of the object
    /// whose branch is checked out where no name is given; its branch goes
    /// into `dest_branch`.
    pub fn begin(kind: ObjectKind, name: Option<String>, dest_branch: &str) -> (r: Step<
        FinishFlow,
        (),
    >)
        ensures
            r@ == FinishFlowView::begun(kind, name.deep_view(), dest_branch@),
    {
        match name {
            Some(name) => Step::Ask(
                FinishFlow::Switching { kind, name },
                Request::SwitchTo { branch: String::from_str(dest_branch) },
            ),
            None => Step::Ask(
                FinishFlow::Naming { kind, dest: String::from_str(dest_branch) },
                Request::CurrentBranch,
            ),
        }
    }

    /// Goes on with the finish after `reply`.
    pub fn resume(self, pargit: &Pargit, reply: Reply) -> (r: Step<FinishFlow, ()>)
        ensures
            r@ == self@.resumed(pargit@, reply@),
    {
        match self {
            FinishFlow::Naming { kind, dest } => match name_from_reply(kind, reply) {
                Ok(name) => Step::Ask(
                    FinishFlow::Switching { kind, name },
                    Request::SwitchTo { branch: dest },
                ),
                Err(e) => Step::Failed(e),
            },
            FinishFlow::Switching { kind, name } => match reply {
                Reply::Done => {
                    let branch = kind.branch_name(name.as_str());
                    let message = joined("Merge ", branch.as_str());
                    Step::Ask(FinishFlow::Merging { kind, name }, Request::Merge { branch, message })
                },
                _ => Step::Failed(reply_failure(reply)),
            },
            FinishFlow::Merging { kind, name } => match reply {
                Reply::Done => FinishFlow::deleting(DeleteFlow::begin(kind, Some(name))),
                _ => Step::Failed(reply_failure(reply)),
            },
            FinishFlow::Deleting { inner } => FinishFlow::deleting(inner.resume(pargit, reply)),
        }
    }
}

} // verus!
