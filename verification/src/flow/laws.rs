//! What holds of the operations whatever they are answered, stated against
//! the model of the repository.

use crate::commands::ReleaseOptions;
use crate::config::Config;
use crate::flow::delete::{DeleteFlowView, DeletePoint};
use crate::flow::release_finish::{
    release_merge_message, temp_branch_text, trunk_text, CheckPoint, ReleaseFinishFlowView,
    StageView, UndoPoint,
};
use crate::flow::release_version::{
    history_words, ReleaseVersionFlowView, VersionFrameView, VersionStageView,
};
use crate::flow::start::StartFlowView;
use crate::flow::unwind::CompensationView;
use crate::flow::{FlowErrorView, ReplyView, RequestView, StepView};
use crate::object_kind::{lemma_branch_round_trip, lemma_kind_initials, ObjectKind};
use crate::pargit::PargitView;
use crate::release::ReleaseView;
use crate::repository::{answered, run, RepoModel};
use vstd::prelude::*;

verus! {

/// The temporary branch of a release is never its release branch.
pub proof fn lemma_temp_apart(kind: ObjectKind, name: Seq<char>)
    ensures
        temp_branch_text(kind, name) != kind.branch_text(name),
{
    lemma_kind_initials();
    reveal_strlit("in-progress-");
    assert(temp_branch_text(kind, name)[0] == 'i');
    assert(kind.branch_text(name)[0] == kind.name_text()[0]);
}

/// Deleting an object whose branch does not exist fails with "branch not
/// found", and nothing is changed: all that was asked of the repository
/// before were questions.
pub proof fn lemma_delete_of_missing(
    pargit: PargitView,
    kind: ObjectKind,
    name: Seq<char>,
    repo: RepoModel,
    reply: ReplyView,
)
    requires
        !repo.branches.contains(kind.branch_text(name)),
        repo.can_answer(RequestView::FindBranch { name: kind.branch_text(name) }, reply),
    ensures
        DeleteFlowView::begun(kind, Some(name)) matches StepView::Ask(flow, request) && {
            &&& request == (RequestView::FindBranch { name: kind.branch_text(name) })
            &&& request.is_query()
            &&& repo.after(request, reply) == repo
            &&& flow.resumed(pargit, reply) == StepView::<DeleteFlowView, ()>::Failed(
                FlowErrorView::BranchNotFound { branch: kind.branch_text(name) },
            )
        },
{
}

/// Deleting the object whose branch is checked out begins with a question,
/// and goes on as the deletion of that object by its name.
pub proof fn lemma_delete_names_current(
    pargit: PargitView,
    kind: ObjectKind,
    name: Seq<char>,
    repo: RepoModel,
    reply: ReplyView,
)
    requires
        repo.current == kind.branch_text(name),
        repo.can_answer(RequestView::CurrentBranch, reply),
    ensures
        DeleteFlowView::begun(kind, None) matches StepView::Ask(flow, request) && {
            &&& request.is_query()
            &&& repo.after(request, reply) == repo
            &&& flow.resumed(pargit, reply) == DeleteFlowView::begun(kind, Some(name))
        },
{
    lemma_branch_round_trip(kind, name);
}

/// A deletion that goes through leaves no branch of the object behind.
pub proof fn lemma_delete_removes(
    pargit: PargitView,
    flow: DeleteFlowView,
    repo: RepoModel,
    reply: ReplyView,
)
    requires
        flow.point == DeletePoint::Deleting,
        repo.can_answer(RequestView::DeleteBranch { name: flow.branch() }, reply),
        flow.resumed(pargit, reply) is Done,
    ensures
        !repo.after(RequestView::DeleteBranch { name: flow.branch() }, reply).branches.contains(
            flow.branch(),
        ),
{
}

/// The step of a deletion after a reply.
pub open spec fn delete_next(pargit: PargitView) -> spec_fn(DeleteFlowView, ReplyView) -> StepView<
    DeleteFlowView,
    (),
> {
    |flow: DeleteFlowView, reply: ReplyView| flow.resumed(pargit, reply)
}

/// What holds of a step of the deletion of the branch `branch`: the deletion
/// works on that branch, its last request is the deletion of the branch, and
/// once it is done the branch is gone.
pub open spec fn delete_step_holds(
    branch: Seq<char>,
    step: StepView<DeleteFlowView, ()>,
    repo: RepoModel,
) -> bool {
    match step {
        StepView::Ask(flow, request) => {
            &&& flow.point != DeletePoint::Naming
            &&& flow.branch() == branch
            &&& flow.point == DeletePoint::Deleting ==> request == (RequestView::DeleteBranch {
                name: branch,
            })
        },
        StepView::Done(_) => !repo.branches.contains(branch),
        _ => true,
    }
}

/// A run of a deletion keeps what holds of it.
pub proof fn lemma_delete_run(
    pargit: PargitView,
    branch: Seq<char>,
    step: StepView<DeleteFlowView, ()>,
    repo: RepoModel,
    replies: Seq<ReplyView>,
)
    requires
        delete_step_holds(branch, step, repo),
        answered(delete_next(pargit), step, repo, replies),
    ensures
        ({
            let (end, reached) = run(delete_next(pargit), step, repo, replies);
            delete_step_holds(branch, end, reached)
        }),
    decreases replies.len(),
{
    match step {
        StepView::Ask(flow, request) => {
            if replies.len() > 0 {
                lemma_delete_run(
                    pargit,
                    branch,
                    flow.resumed(pargit, replies[0]),
                    repo.after(request, replies[0]),
                    replies.drop_first(),
                );
            }
        },
        _ => {},
    }
}

/// Deleting is idempotent in its failure: once the deletion of an object has
/// gone through, whatever the repository answered on the way, a second
/// deletion of the object fails with "branch not found" and changes nothing.
pub proof fn lemma_delete_twice(
    pargit: PargitView,
    kind: ObjectKind,
    name: Seq<char>,
    repo: RepoModel,
    replies: Seq<ReplyView>,
    reply: ReplyView,
)
    requires
        answered(delete_next(pargit), DeleteFlowView::begun(kind, Some(name)), repo, replies),
        ({
            let (end, reached) = run(
                delete_next(pargit),
                DeleteFlowView::begun(kind, Some(name)),
                repo,
                replies,
            );
            end is Done && reached.can_answer(
                RequestView::FindBranch { name: kind.branch_text(name) },
                reply,
            )
        }),
    ensures
        ({
            let (end, reached) = run(
                delete_next(pargit),
                DeleteFlowView::begun(kind, Some(name)),
                repo,
                replies,
            );
            DeleteFlowView::begun(kind, Some(name)) matches StepView::Ask(flow, request) && {
                &&& reached.after(request, reply) == reached
                &&& flow.resumed(pargit, reply) == StepView::<DeleteFlowView, ()>::Failed(
                    FlowErrorView::BranchNotFound { branch: kind.branch_text(name) },
                )
            }
        }),
{
    let begun = DeleteFlowView::begun(kind, Some(name));
    lemma_delete_run(pargit, kind.branch_text(name), begun, repo, replies);
    let (end, reached) = run(delete_next(pargit), begun, repo, replies);
    lemma_delete_of_missing(pargit, kind, name, reached, reply);
}

/// Starting an object whose branch exists fails with "already in progress",
/// and no branch is created.
pub proof fn lemma_start_of_existing(
    pargit: PargitView,
    kind: ObjectKind,
    name: Seq<char>,
    from_ref: Option<Seq<char>>,
    repo: RepoModel,
    reply: ReplyView,
)
    requires
        repo.branches.contains(kind.branch_text(name)),
        repo.can_answer(RequestView::FindBranch { name: kind.branch_text(name) }, reply),
    ensures
        StartFlowView::begun(kind, name, from_ref) matches StepView::Ask(flow, request) && {
            &&& request.is_query()
            &&& repo.after(request, reply) == repo
            &&& flow.resumed(pargit, reply) == StepView::<StartFlowView, ()>::Failed(
                FlowErrorView::AlreadyInProgress { kind, name },
            )
        },
{
}

/// The names that the finish of one release works with.
pub struct ReleaseNames {
    /// The release branch.
    pub branch: Seq<char>,
    /// The temporary branch.
    pub temp: Seq<char>,
    /// The tag.
    pub tag: Seq<char>,
}

/// The names that a finish works with.
pub open spec fn names_of(pargit: PargitView, flow: ReleaseFinishFlowView) -> ReleaseNames {
    ReleaseNames {
        branch: flow.frame.branch(),
        temp: flow.frame.temp(),
        tag: flow.frame.tag_text(pargit.config),
    }
}

/// What the finish of a release waits for at each stage up to the push and
/// through the undoing.
pub open spec fn pending_request(pargit: PargitView, flow: ReleaseFinishFlowView) -> RequestView {
    let names = names_of(pargit, flow);
    match flow.stage {
        StageView::SwitchingToRelease => RequestView::SwitchTo { branch: names.branch },
        StageView::Checking(CheckPoint::Building) => RequestView::Verify {
            command: Config::compilation_text(pargit.config),
        },
        StageView::Checking(CheckPoint::Dirty) => RequestView::IsDirty,
        StageView::Checking(CheckPoint::UpToDate(trunk)) => RequestView::IsUpToDate {
            branch: trunk_text(pargit.config, trunk),
        },
        StageView::Checking(CheckPoint::Pulling(trunk)) => RequestView::Pull {
            branch: trunk_text(pargit.config, trunk),
            ff_only: true,
        },
        StageView::Checking(CheckPoint::Rechecking(trunk)) => RequestView::IsUpToDate {
            branch: trunk_text(pargit.config, trunk),
        },
        StageView::CreatingTemp => RequestView::CreateBranch {
            name: names.temp,
            start_point: pargit.config.main_branch_name,
        },
        StageView::SwitchingToTemp => RequestView::SwitchTo { branch: names.temp },
        StageView::Merging => RequestView::Merge {
            branch: names.branch,
            message: release_merge_message(flow.frame.kind, flow.frame.name),
        },
        StageView::Tagging => RequestView::CreateTag { name: names.tag },
        StageView::Pushing => RequestView::Push {
            source: names.temp,
            target: pargit.config.main_branch_name,
            track: false,
        },
        StageView::Undoing { point, .. } => flow.frame.undo_request(pargit, point),
        _ => RequestView::CurrentBranch,
    }
}

/// What a repository held when the finish of a release began, as far as the
/// laws speak of it.
pub struct Outset {
    /// The release branch stood.
    pub branch_stands: bool,
    /// There was no tag of the name of the release's.
    pub tag_absent: bool,
    /// There was no branch of the name of the temporary one.
    pub temp_absent: bool,
    /// The tip of the release branch had not moved, and the release branch
    /// is neither of the trunks.
    pub tip_at_rest: bool,
    /// What had gone through to the remote.
    pub sent: Seq<RequestView>,
}

/// What `repo` holds at the outset of a finish that works with `names`.
pub open spec fn outset_of(pargit: PargitView, names: ReleaseNames, repo: RepoModel) -> Outset {
    Outset {
        branch_stands: repo.branches.contains(names.branch),
        tag_absent: !repo.tags.contains(names.tag),
        temp_absent: !repo.branches.contains(names.temp),
        tip_at_rest: !repo.moved.contains(names.branch) && names.branch
            != pargit.config.develop_branch_name && names.branch != pargit.config.main_branch_name,
        sent: repo.sent,
    }
}

/// What a finish that has not come to its push has left as it was: nothing
/// has gone through to the remote, and the tip of the release branch is where
/// it was.
pub open spec fn left_alone(
    pargit: PargitView,
    names: ReleaseNames,
    outset: Outset,
    repo: RepoModel,
) -> bool {
    &&& repo.sent == outset.sent
    &&& outset.tip_at_rest ==> !repo.moved.contains(names.branch) && names.branch
        != pargit.config.develop_branch_name && names.branch != pargit.config.main_branch_name
}

/// What holds of the repository while the finish of a release waits at a
/// stage. Up to the push nothing has gone through to the remote and the tip
/// of the release branch rests. The release branch stands from the moment it
/// was checked out; the temporary branch stands from its creation to its
/// deletion; a tag that was not there is there only between its creation
/// and its deletion. Once the push went through nothing more is claimed.
pub open spec fn finish_holds(
    pargit: PargitView,
    flow: ReleaseFinishFlowView,
    request: RequestView,
    repo: RepoModel,
    outset: Outset,
) -> bool {
    let names = names_of(pargit, flow);
    let branch = repo.branches.contains(names.branch);
    let temp = repo.branches.contains(names.temp);
    let no_tag = outset.tag_absent ==> !repo.tags.contains(names.tag);
    let no_temp = outset.temp_absent ==> !temp;
    match flow.stage {
        StageView::Naming => false,
        StageView::Tidying(_) => true,
        StageView::Deleting { .. } => true,
        _ => {
            &&& request == pending_request(pargit, flow)
            &&& left_alone(pargit, names, outset, repo)
            &&& match flow.stage {
                StageView::SwitchingToRelease => (outset.branch_stands ==> branch) && no_tag
                    && no_temp,
                StageView::Checking(_) => branch && no_tag && no_temp,
                StageView::CreatingTemp => branch && no_tag && no_temp,
                StageView::SwitchingToTemp => branch && temp && no_tag,
                StageView::Merging => branch && temp && no_tag && repo.current == names.temp,
                StageView::Tagging => branch && temp && no_tag,
                StageView::Pushing => branch && temp,
                StageView::Undoing { point: UndoPoint::AbortingMerge, .. } => branch && temp
                    && no_tag,
                StageView::Undoing { point: UndoPoint::DeletingTag, .. } => branch && temp,
                StageView::Undoing { point: UndoPoint::SwitchingBack, .. } => branch && temp
                    && no_tag,
                StageView::Undoing { point: UndoPoint::DeletingTemp, .. } => branch && temp
                    && no_tag && repo.current == names.branch,
                _ => true,
            }
        },
    }
}

/// What holds of the repository once the finish of a release has failed.
///
/// Nothing has gone through to the remote, and the tip of the release branch
/// is where it was. A release branch that stood still stands; there is no tag
/// where there was none, and no temporary branch where there was none. Where
/// the merge, the tag or the push failed, the release branch is checked out
/// again.
pub open spec fn finish_failed_safely(
    pargit: PargitView,
    names: ReleaseNames,
    outset: Outset,
    error: FlowErrorView,
    repo: RepoModel,
) -> bool {
    &&& left_alone(pargit, names, outset, repo)
    &&& outset.branch_stands ==> repo.branches.contains(names.branch)
    &&& outset.tag_absent ==> !repo.tags.contains(names.tag)
    &&& outset.temp_absent ==> !repo.branches.contains(names.temp)
    &&& error is MergeFailed || error is RolledBack ==> repo.current == names.branch
}

/// What holds of a step of the finish of a release and the repository.
pub open spec fn finish_step_holds(
    pargit: PargitView,
    names: ReleaseNames,
    outset: Outset,
    step: StepView<ReleaseFinishFlowView, ()>,
    repo: RepoModel,
) -> bool {
    match step {
        StepView::Ask(flow, request) => names_of(pargit, flow) == names && finish_holds(
            pargit,
            flow,
            request,
            repo,
            outset,
        ),
        StepView::Failed(error) => finish_failed_safely(pargit, names, outset, error, repo),
        _ => true,
    }
}

/// One step of the finish of a release keeps what holds of it.
pub proof fn lemma_finish_step(
    pargit: PargitView,
    flow: ReleaseFinishFlowView,
    request: RequestView,
    repo: RepoModel,
    outset: Outset,
    reply: ReplyView,
)
    requires
        finish_holds(pargit, flow, request, repo, outset),
        repo.can_answer(request, reply),
    ensures
        finish_step_holds(
            pargit,
            names_of(pargit, flow),
            outset,
            flow.resumed(pargit, reply),
            repo.after(request, reply),
        ),
{
    lemma_temp_apart(flow.frame.kind, flow.frame.name);
}

/// The step of the finish of a release after a reply.
pub open spec fn finish_next(pargit: PargitView) -> spec_fn(
    ReleaseFinishFlowView,
    ReplyView,
) -> StepView<ReleaseFinishFlowView, ()> {
    |flow: ReleaseFinishFlowView, reply: ReplyView| flow.resumed(pargit, reply)
}

/// A run of the finish of a release keeps what holds of it.
pub proof fn lemma_finish_run(
    pargit: PargitView,
    names: ReleaseNames,
    outset: Outset,
    step: StepView<ReleaseFinishFlowView, ()>,
    repo: RepoModel,
    replies: Seq<ReplyView>,
)
    requires
        finish_step_holds(pargit, names, outset, step, repo),
        answered(finish_next(pargit), step, repo, replies),
    ensures
        ({
            let (end, reached) = run(finish_next(pargit), step, repo, replies);
            finish_step_holds(pargit, names, outset, end, reached)
        }),
    decreases replies.len(),
{
    match step {
        StepView::Ask(flow, request) => {
            if replies.len() > 0 {
                lemma_finish_step(pargit, flow, request, repo, outset, replies[0]);
                lemma_finish_run(
                    pargit,
                    names,
                    outset,
                    flow.resumed(pargit, replies[0]),
                    repo.after(request, replies[0]),
                    replies.drop_first(),
                );
            }
        },
        _ => {},
    }
}

/// The rollback of a release that does not go through.
///
/// Let the finish of a release be answered by the repository in any way that
/// the repository can, from whatever the repository holds. Where the finish
/// fails, nothing has gone through to the remote, and the tip of the release
/// branch is where it was. If the release branch stood, it still stands; if
/// there was no tag of the release, there is none; if there was no temporary
/// branch, there is none. Where the merge, the tag or the push failed, the
/// release branch is checked out again. A finish whose push went through does
/// not end this way: it is done, or the release is stranded.
///
/// The repository is the one of [`RepoModel`], and what it can answer is what
/// [`RepoModel::can_answer`] admits. That rules out a checkout of a branch
/// that stands, the deletion of a tag that stands and the deletion of a
/// branch that stands and is not checked out failing for a reason of their
/// own; with a repository that lets them fail, the undoing can leave the tag
/// or the temporary branch behind.
pub proof fn lemma_finish_rolls_back(
    pargit: PargitView,
    kind: ObjectKind,
    name: Seq<char>,
    tag: Option<Seq<char>>,
    options: ReleaseOptions,
    repo: RepoModel,
    replies: Seq<ReplyView>,
)
    requires
        answered(
            finish_next(pargit),
            ReleaseFinishFlowView::begun(kind, Some(name), tag, options),
            repo,
            replies,
        ),
    ensures
        ({
            let begun = ReleaseFinishFlowView::begun(kind, Some(name), tag, options);
            let names = names_of(pargit, begun->Ask_0);
            let (end, reached) = run(finish_next(pargit), begun, repo, replies);
            end matches StepView::Failed(error) ==> finish_failed_safely(
                pargit,
                names,
                outset_of(pargit, names, repo),
                error,
                reached,
            )
        }),
{
    let begun = ReleaseFinishFlowView::begun(kind, Some(name), tag, options);
    let names = names_of(pargit, begun->Ask_0);
    lemma_finish_run(pargit, names, outset_of(pargit, names, repo), begun, repo, replies);
}

/// Finishing the release whose branch is checked out begins with a question,
/// and goes on as the finish of that release by its name.
pub proof fn lemma_finish_names_current(
    pargit: PargitView,
    kind: ObjectKind,
    name: Seq<char>,
    tag: Option<Seq<char>>,
    options: ReleaseOptions,
    repo: RepoModel,
    reply: ReplyView,
)
    requires
        repo.current == kind.branch_text(name),
        repo.can_answer(RequestView::CurrentBranch, reply),
    ensures
        ReleaseFinishFlowView::begun(kind, None, tag, options) matches StepView::Ask(
            flow,
            request,
        ) && {
            &&& request.is_query()
            &&& repo.after(request, reply) == repo
            &&& flow.resumed(pargit, reply) == ReleaseFinishFlowView::begun(
                kind,
                Some(name),
                tag,
                options,
            )
        },
{
    lemma_branch_round_trip(kind, name);
}

/// What is remembered once a release was started in one go: the deletion of
/// its branch.
pub open spec fn release_history(kind: ObjectKind, name: Seq<char>) -> Seq<
    (Seq<char>, CompensationView),
> {
    seq![(history_words(kind), CompensationView::DeleteObject { kind, name: Some(name) })]
}

/// A release in one go remembers the deletion of its branch as soon as the
/// release is started, before anything else is asked.
pub proof fn lemma_release_is_remembered(
    kind: ObjectKind,
    options: ReleaseOptions,
    release: ReleaseView,
)
    ensures
        (VersionFrameView { kind, options, history: Seq::empty() }).started(
            StepView::Done(release),
        ) == StepView::<ReleaseVersionFlowView, ()>::Ask(
            ReleaseVersionFlowView {
                frame: VersionFrameView {
                    kind,
                    options,
                    history: release_history(kind, release.name),
                },
                stage: VersionStageView::CheckingDirty { release },
            },
            RequestView::IsDirty,
        ),
{
    assert(Seq::<(Seq<char>, CompensationView)>::empty().push(
        (history_words(kind), CompensationView::DeleteObject { kind, name: Some(release.name) }),
    ) =~= release_history(kind, release.name));
}

/// Whether `step` is the first of an undoing that asks `asked`, remembers
/// nothing any more and will end in `error`.
pub open spec fn begins_undoing(
    step: StepView<ReleaseVersionFlowView, ()>,
    asked: RequestView,
    error: FlowErrorView,
    stranded: bool,
) -> bool {
    match step {
        StepView::Ask(flow, request) => request == asked && flow.frame.history.len() == 0
            && match flow.stage {
            VersionStageView::Unwinding { error: e, stranded: s, .. } => e == error && s == stranded,
            _ => false,
        },
        _ => false,
    }
}

/// A release in one go whose finish fails deletes its branch again: the
/// deletion begins at once, whether or not the release stands upstream, and a
/// finish that went through deletes nothing more.
pub proof fn lemma_failed_release_is_unwound(
    kind: ObjectKind,
    options: ReleaseOptions,
    name: Seq<char>,
    error: FlowErrorView,
)
    ensures
        ({
            let frame = VersionFrameView { kind, options, history: release_history(kind, name) };
            let asked = RequestView::FindBranch { name: kind.branch_text(name) };
            &&& begins_undoing(frame.finishing(StepView::Failed(error)), asked, error, false)
            &&& begins_undoing(frame.finishing(StepView::Stranded(error)), asked, error, true)
            &&& frame.finishing(StepView::Done(())) == StepView::<ReleaseVersionFlowView, ()>::Done(())
        }),
{
    let history = release_history(kind, name);
    assert(history.reverse() =~= history);
    assert(history.reverse().len() == 1);
}

} // verus!
