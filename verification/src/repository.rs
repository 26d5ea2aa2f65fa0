//! A model of the repository that the operations are carried out on: what
//! each request does to it and which replies it can give. The laws of the
//! operations are stated against this model.

use crate::flow::{ReplyView, RequestView, StepView};
use vstd::prelude::*;

verus! {

/// What the laws need to know of a repository: its local branches, its tags,
/// the branch that is checked out, the branches whose tip has moved, and what
/// has gone through to the remote.
pub struct RepoModel {
    pub branches: Set<Seq<char>>,
    pub tags: Set<Seq<char>>,
    pub current: Seq<char>,
    /// The branches that got a new commit: by a merge or a commit while they
    /// were checked out, or by a pull.
    pub moved: Set<Seq<char>>,
    /// The requests that changed the remote, oldest first.
    pub sent: Seq<RequestView>,
}

impl RepoModel {
    /// Whether `reply` says that `request` was carried out.
    pub open spec fn went_through(request: RequestView, reply: ReplyView) -> bool {
        match request {
            RequestView::Push { .. } => reply is Done || reply is Text,
            _ => reply is Done,
        }
    }

    /// The repository once `request` was carried out.
    pub open spec fn changed_by(self, request: RequestView) -> RepoModel {
        match request {
            RequestView::CreateBranch { name, .. } => RepoModel {
                branches: self.branches.insert(name),
                ..self
            },
            RequestView::TrackRemote { branch } => RepoModel {
                branches: self.branches.insert(branch),
                ..self
            },
            RequestView::SwitchTo { branch } => RepoModel { current: branch, ..self },
            RequestView::DeleteBranch { name } => RepoModel {
                branches: self.branches.remove(name),
                ..self
            },
            RequestView::CreateTag { name } => RepoModel { tags: self.tags.insert(name), ..self },
            RequestView::DeleteTag { name } => RepoModel { tags: self.tags.remove(name), ..self },
            RequestView::Merge { .. } => RepoModel {
                moved: self.moved.insert(self.current),
                ..self
            },
            RequestView::CommitAll { .. } => RepoModel {
                moved: self.moved.insert(self.current),
                ..self
            },
            RequestView::Pull { branch, .. } => RepoModel {
                moved: self.moved.insert(branch),
                ..self
            },
            RequestView::Push { .. } => RepoModel { sent: self.sent.push(request), ..self },
            RequestView::PushTags => RepoModel { sent: self.sent.push(request), ..self },
            RequestView::DeleteRemoteBranch { .. } => RepoModel {
                sent: self.sent.push(request),
                ..self
            },
            _ => self,
        }
    }

    /// The repository after `request` was answered with `reply`: a request
    /// that did not go through leaves it as it was.
    pub open spec fn after(self, request: RequestView, reply: ReplyView) -> RepoModel {
        if RepoModel::went_through(request, reply) {
            self.changed_by(request)
        } else {
            self
        }
    }

    /// Whether the repository can answer `request` with `reply`.
    ///
    /// What is asked of its branches and tags is answered by what it holds.
    /// A branch or a tag is only created where it does not exist. A checkout,
    /// the deletion of a tag and the deletion of a branch go through exactly
    /// where what they name exists, and the branch to delete is not checked
    /// out. An acting request is answered with `Done`, for a push with the
    /// remote's output, or with `Failed`. What depends on the remote, on the
    /// working tree or on the user is not constrained.
    pub open spec fn can_answer(self, request: RequestView, reply: ReplyView) -> bool {
        match request {
            RequestView::CurrentBranch => reply == ReplyView::Text(self.current),
            RequestView::FindBranch { name } => reply == if self.branches.contains(name) {
                ReplyView::Done
            } else {
                ReplyView::Missing
            },
            RequestView::HasTag { name } => reply == ReplyView::Flag(self.tags.contains(name)),
            RequestView::IsDirty => reply is Flag || reply is Failed,
            RequestView::IsUpToDate { .. } => reply is Flag || reply is Failed,
            RequestView::CreateBranch { name, .. } => (reply is Done || reply is Failed) && (reply is Done
                ==> !self.branches.contains(name)),
            RequestView::CreateTag { name } => (reply is Done || reply is Failed) && (reply is Done
                ==> !self.tags.contains(name)),
            RequestView::SwitchTo { branch } => (reply is Done || reply is Failed) && (reply is Done
                <==> self.branches.contains(branch)),
            RequestView::DeleteTag { name } => (reply is Done || reply is Failed) && (reply is Done
                <==> self.tags.contains(name)),
            RequestView::DeleteBranch { name } => (reply is Done || reply is Failed) && (reply is Done
                <==> self.branches.contains(name) && name != self.current),
            RequestView::Push { .. } => reply is Done || reply is Text || reply is Failed,
            RequestView::Merge { .. } => reply is Done || reply is Failed,
            RequestView::Verify { .. } => reply is Done || reply is Failed,
            RequestView::Pull { .. } => reply is Done || reply is Failed,
            RequestView::PushTags => reply is Done || reply is Failed,
            RequestView::AbortMerge => reply is Done || reply is Failed,
            _ => true,
        }
    }
}

/// Where an operation and the repository stand once the operation was
/// answered with `replies`, one after the other, for as long as it asked.
/// `next` is the step of the operation after a reply.
pub open spec fn run<F, T>(
    next: spec_fn(F, ReplyView) -> StepView<F, T>,
    step: StepView<F, T>,
    repo: RepoModel,
    replies: Seq<ReplyView>,
) -> (StepView<F, T>, RepoModel)
    decreases replies.len(),
{
    match step {
        StepView::Ask(flow, request) => if replies.len() > 0 {
            run(
                next,
                next(flow, replies[0]),
                repo.after(request, replies[0]),
                replies.drop_first(),
            )
        } else {
            (step, repo)
        },
        _ => (step, repo),
    }
}

/// Whether each of `replies` is one that the repository can give when the
/// operation asks.
pub open spec fn answered<F, T>(
    next: spec_fn(F, ReplyView) -> StepView<F, T>,
    step: StepView<F, T>,
    repo: RepoModel,
    replies: Seq<ReplyView>,
) -> bool
    decreases replies.len(),
{
    match step {
        StepView::Ask(flow, request) => if replies.len() > 0 {
            repo.can_answer(request, replies[0]) && answered(
                next,
                next(flow, replies[0]),
                repo.after(request, replies[0]),
                replies.drop_first(),
            )
        } else {
            true
        },
        _ => true,
    }
}

} // verus!
