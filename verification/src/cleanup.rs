//! Cleaning up: flow branches that went into the remote develop branch are
//! deleted locally.

use crate::flow::{Request, RequestView};
use crate::object_kind::ObjectKind;
use crate::text::same_text;
use vstd::prelude::*;

verus! {

/// What is known of a local branch when the repository is cleaned up.
#[derive(Debug, PartialEq, Eq)]
pub struct BranchState {
    pub name: String,
    /// Whether the remote develop branch holds the branch.
    pub in_remote_develop: bool,
    /// Whether the local develop branch holds the branch.
    pub in_develop: bool,
}

/// What a [`BranchState`] stands for.
pub struct BranchStateView {
    pub name: Seq<char>,
    pub in_remote_develop: bool,
    pub in_develop: bool,
}

impl View for BranchState {
    type V = BranchStateView;

    open spec fn view(&self) -> BranchStateView {
        BranchStateView {
            name: self.name@,
            in_remote_develop: self.in_remote_develop,
            in_develop: self.in_develop,
        }
    }
}

impl DeepView for BranchState {
    type V = BranchStateView;

    open spec fn deep_view(&self) -> BranchStateView {
        self@
    }
}

/// Whether a branch of this name is the branch of an object of some kind.
pub open spec fn is_flow_branch(name: Seq<char>) -> bool {
    exists|kind: ObjectKind| kind.prefix_text().is_prefix_of(name)
}

/// Whether a branch is to be deleted by a cleanup: it is a flow branch that
/// the remote develop branch holds and the local one does not.
pub open spec fn is_stale(branch: BranchStateView) -> bool {
    is_flow_branch(branch.name) && branch.in_remote_develop && !branch.in_develop
}

/// What deletes a stale branch: the develop branch is checked out first
/// where the branch itself is checked out.
pub open spec fn removal(develop: Seq<char>, current: Seq<char>, name: Seq<char>) -> Seq<
    RequestView,
> {
    if current == name {
        seq![RequestView::SwitchTo { branch: develop }, RequestView::DeleteBranch { name }]
    } else {
        seq![RequestView::DeleteBranch { name }]
    }
}

/// What deletes the stale branches among `branches`, in their order.
pub open spec fn removals(develop: Seq<char>, current: Seq<char>, branches: Seq<BranchStateView>) -> Seq<
    RequestView,
>
    decreases branches.len(),
{
    if branches.len() == 0 {
        Seq::empty()
    } else {
        removals(develop, current, branches.drop_last()) + (if is_stale(branches.last()) {
            removal(develop, current, branches.last().name)
        } else {
            Seq::empty()
        })
    }
}

/// What a cleanup does: nothing unless the remote develop branch is ahead of
/// the local one, that is, differs from it and holds it.
pub open spec fn cleanup_plan(
    develop: Seq<char>,
    current: Seq<char>,
    develop_differs: bool,
    develop_merged: bool,
    branches: Seq<BranchStateView>,
) -> Seq<RequestView> {
    if develop_differs && develop_merged {
        removals(develop, current, branches)
    } else {
        Seq::empty()
    }
}

/// Whether a branch of this name is the branch of an object of some kind.
pub fn flow_branch(name: &str) -> (r: bool)
    ensures
        r == is_flow_branch(name@),
{
    ObjectKind::of_branch(name).is_some()
}

/// What a cleanup does.
pub fn plan_cleanup(
    develop: &str,
    current: &str,
    develop_differs: bool,
    develop_merged: bool,
    branches: &Vec<BranchState>,
) -> (r: Vec<Request>)
    ensures
        r.deep_view() == cleanup_plan(
            develop@,
            current@,
            develop_differs,
            develop_merged,
            branches.deep_view(),
        ),
{
    let mut plan: Vec<Request> = Vec::new();
    assert(plan.deep_view() =~= Seq::empty());
    if !(develop_differs && develop_merged) {
        return plan;
    }
    let mut i: usize = 0;
    assert(branches.deep_view().take(0) =~= Seq::empty());
    while i < branches.len()
        invariant
            i <= branches.len(),
            plan.deep_view() == removals(develop@, current@, branches.deep_view().take(i as int)),
        decreases branches.len() - i,
    {
        let ghost before = plan.deep_view();
        let ghost upto = branches.deep_view().take(i + 1);
        assert(upto.drop_last() =~= branches.deep_view().take(i as int));
        assert(upto.last() == branches@[i as int]@);
        let branch = &branches[i];
        if flow_branch(branch.name.as_str()) && branch.in_remote_develop && !branch.in_develop {
            if same_text(current, branch.name.as_str()) {
                plan.push(Request::SwitchTo { branch: String::from_str(develop) });
            }
            plan.push(Request::DeleteBranch { name: branch.name.clone() });
            assert(plan.deep_view() =~= before + removal(develop@, current@, branch.name@));
        } else {
            assert(plan.deep_view() =~= before + Seq::<RequestView>::empty());
        }
        i += 1;
    }
    assert(branches.deep_view().take(branches.len() as int) =~= branches.deep_view());
    plan
}

} // verus!
