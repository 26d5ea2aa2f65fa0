//! Finishing a release or a hotfix.
//!
//! The branch is merged into a temporary branch that starts at the main
//! branch, the merge is tagged, and the temporary branch is pushed to the
//! remote main branch. That push decides: where it or a step before it
//! fails, what was done is undone and the release branch stays in progress;
//! once it went through, the release stands and what follows only tidies up.

use crate::commands::ReleaseOptions;
use crate::config::{tag_name, Config, ConfigView};
use crate::flow::delete::{DeleteFlow, DeleteFlowView};
use crate::flow::{
    failure_of, name_from_reply, named_by, reply_failure, FlowError, FlowErrorView, Reply,
    ReplyView, Request, RequestView, Step, StepView,
};
use crate::object_kind::ObjectKind;
use crate::pargit::{Pargit, PargitView, ProjectType};
use crate::text::joined;
use vstd::prelude::*;

verus! {

/// One of the two long-lived branches.
#[derive(Clone, Copy, Debug, PartialEq, Eq, Structural)]
pub enum Trunk {
    Develop,
    Main,
}

/// What the checks before a release wait for.
#[derive(Clone, Copy, Debug, PartialEq, Eq, Structural)]
pub enum CheckPoint {
    /// The build of the project.
    Building,
    /// Whether the build left changes in the working tree.
    Dirty,
    /// Whether a trunk holds all of its upstream.
    UpToDate(Trunk),
    /// The pull of a trunk that was behind.
    Pulling(Trunk),
    /// Whether a trunk holds all of its upstream after the pull.
    Rechecking(Trunk),
}

/// What the undoing of a release that did not go through waits for.
#[derive(Clone, Copy, Debug, PartialEq, Eq, Structural)]
pub enum UndoPoint {
    /// The end of the merge that did not go through.
    AbortingMerge,
    /// The deletion of the tag.
    DeletingTag,
    /// The checkout of the release branch.
    SwitchingBack,
    /// The deletion of the temporary branch.
    DeletingTemp,
}

/// What the tidying after a release that went through waits for.
#[derive(Clone, Copy, Debug, PartialEq, Eq, Structural)]
pub enum TidyPoint {
    /// The checkout of the main branch.
    SwitchingToMain,
    /// The merge of the temporary branch into the main branch.
    MergingTemp,
    /// The push of the tags.
    PushingTags,
    /// The checkout of the develop branch.
    SwitchingToDevelop,
    /// The merge of the main branch into the develop branch.
    MergingMain,
    /// The push of the develop branch.
    PushingDevelop,
    /// The deletion of the temporary branch.
    DeletingTemp,
}

/// Where the finish of a release stands.
#[derive(Debug, PartialEq, Eq)]
pub enum Stage {
    /// It waits for the branch that is checked out, which names the release.
    Naming,
    /// It waits for the checkout of the release branch.
    SwitchingToRelease,
    /// The checks before the release are under way.
    Checking(CheckPoint),
    /// It waits for the creation of the temporary branch.
    CreatingTemp,
    /// It waits for the checkout of the temporary branch.
    SwitchingToTemp,
    /// It waits for the merge of the release branch.
    Merging,
    /// It waits for the creation of the tag.
    Tagging,
    /// It waits for the push to the remote main branch.
    Pushing,
    /// A step failed before the push went through, and what was done is
    /// undone; `error` is what the finish ends in.
    Undoing { point: UndoPoint, error: FlowError },
    /// The push went through, and what follows it locally is under way.
    Tidying(TidyPoint),
    /// The push went through, and the release branch is deleted.
    Deleting { inner: DeleteFlow },
}

/// What a [`Stage`] stands for.
pub enum StageView {
    Naming,
    SwitchingToRelease,
    Checking(CheckPoint),
    CreatingTemp,
    SwitchingToTemp,
    Merging,
    Tagging,
    Pushing,
    Undoing { point: UndoPoint, error: FlowErrorView },
    Tidying(TidyPoint),
    Deleting { inner: DeleteFlowView },
}

impl View for Stage {
    type V = StageView;

    open spec fn view(&self) -> StageView {
        match self {
            Stage::Naming => StageView::Naming,
            Stage::SwitchingToRelease => StageView::SwitchingToRelease,
            Stage::Checking(p) => StageView::Checking(*p),
            Stage::CreatingTemp => StageView::CreatingTemp,
            Stage::SwitchingToTemp => StageView::SwitchingToTemp,
            Stage::Merging => StageView::Merging,
            Stage::Tagging => StageView::Tagging,
            Stage::Pushing => StageView::Pushing,
            Stage::Undoing { point, error } => StageView::Undoing { point: *point, error: error@ },
            Stage::Tidying(p) => StageView::Tidying(*p),
            Stage::Deleting { inner } => StageView::Deleting { inner: inner@ },
        }
    }
}

/// What stays the same while a release is finished.
#[derive(Debug, PartialEq, Eq)]
pub struct ReleaseFrame {
    pub kind: ObjectKind,
    /// The name of the release; empty until it is known.
    pub name: String,
    /// The tag that was resolved with the release, if one was.
    pub tag: Option<String>,
    pub options: ReleaseOptions,
}

/// What a [`ReleaseFrame`] stands for.
pub struct ReleaseFrameView {
    pub kind: ObjectKind,
    pub name: Seq<char>,
    pub tag: Option<Seq<char>>,
    pub options: ReleaseOptions,
}

impl View for ReleaseFrame {
    type V = ReleaseFrameView;

    open spec fn view(&self) -> ReleaseFrameView {
        ReleaseFrameView {
            kind: self.kind,
            name: self.name@,
            tag: self.tag.deep_view(),
            options: self.options,
        }
    }
}

/// The finish of a release that is under way.
#[derive(Debug, PartialEq, Eq)]
pub struct ReleaseFinishFlow {
    pub frame: ReleaseFrame,
    pub stage: Stage,
}

/// What a [`ReleaseFinishFlow`] stands for.
pub struct ReleaseFinishFlowView {
    pub frame: ReleaseFrameView,
    pub stage: StageView,
}

impl View for ReleaseFinishFlow {
    type V = ReleaseFinishFlowView;

    open spec fn view(&self) -> ReleaseFinishFlowView {
        ReleaseFinishFlowView { frame: self.frame@, stage: self.stage@ }
    }
}

impl DeepView for ReleaseFinishFlow {
    type V = ReleaseFinishFlowView;

    open spec fn deep_view(&self) -> ReleaseFinishFlowView {
        self@
    }
}

/// The name of the temporary branch on which the release `name` is put
/// together.
pub open spec fn temp_branch_text(kind: ObjectKind, name: Seq<char>) -> Seq<char> {
    "in-progress-"@ + kind.name_text() + seq!['-'] + name
}

/// The message of the commit that merges the release branch.
pub open spec fn release_merge_message(kind: ObjectKind, name: Seq<char>) -> Seq<char> {
    "Merge "@ + kind.name_text() + " branch "@ + name
}

/// The message of the commit that merges the temporary branch.
pub open spec fn temp_merge_message() -> Seq<char> {
    "Merge temporary release branch"@
}

/// The message of the commit that merges the main branch.
pub open spec fn main_merge_message(main: Seq<char>) -> Seq<char> {
    "Merge "@ + main + " branch"@
}

/// The name of a trunk.
pub open spec fn trunk_text(config: ConfigView, trunk: Trunk) -> Seq<char> {
    match trunk {
        Trunk::Develop => config.develop_branch_name,
        Trunk::Main => config.main_branch_name,
    }
}

/// What a reply that reports a failure says of it; nothing where the reply
/// is of another shape.
pub open spec fn message_of(reply: ReplyView) -> Seq<char> {
    match reply {
        ReplyView::Failed { message } => message,
        _ => Seq::empty(),
    }
}

impl ReleaseFrameView {
    /// The release branch.
    pub open spec fn branch(self) -> Seq<char> {
        self.kind.branch_text(self.name)
    }

    /// The temporary branch.
    pub open spec fn temp(self) -> Seq<char> {
        temp_branch_text(self.kind, self.name)
    }

    /// The tag of the release: the one that was resolved with it, else the
    /// name of the release behind the configured prefix.
    pub open spec fn tag_text(self, config: ConfigView) -> Seq<char> {
        match self.tag {
            Some(tag) => tag,
            None => tag_name(config.tag_prefix, self.name, None),
        }
    }

    /// The flow at another stage, asking `request`.
    pub open spec fn ask(self, stage: StageView, request: RequestView) -> StepView<
        ReleaseFinishFlowView,
        (),
    > {
        StepView::Ask(ReleaseFinishFlowView { frame: self, stage }, request)
    }

    /// The step that checks the release branch out.
    pub open spec fn switching_to_release(self) -> StepView<ReleaseFinishFlowView, ()> {
        self.ask(StageView::SwitchingToRelease, RequestView::SwitchTo { branch: self.branch() })
    }

    /// The first of the checks: the build where the project is known to have
    /// one, else the look at the working tree.
    pub open spec fn checking(self, pargit: PargitView) -> StepView<ReleaseFinishFlowView, ()> {
        match pargit.type_ {
            Some(ProjectType::Rust) => self.ask(
                StageView::Checking(CheckPoint::Building),
                RequestView::Verify { command: Config::compilation_text(pargit.config) },
            ),
            None => self.ask(StageView::Checking(CheckPoint::Dirty), RequestView::IsDirty),
        }
    }

    /// The step that asks whether `trunk` holds all of its upstream.
    pub open spec fn checking_trunk(self, pargit: PargitView, trunk: Trunk) -> StepView<
        ReleaseFinishFlowView,
        (),
    > {
        self.ask(
            StageView::Checking(CheckPoint::UpToDate(trunk)),
            RequestView::IsUpToDate { branch: trunk_text(pargit.config, trunk) },
        )
    }

    /// The step after `trunk` was found to hold all of its upstream: the main
    /// branch is looked at after the develop branch, and the temporary branch
    /// is created after that.
    pub open spec fn after_trunk(self, pargit: PargitView, trunk: Trunk) -> StepView<
        ReleaseFinishFlowView,
        (),
    > {
        match trunk {
            Trunk::Develop => self.checking_trunk(pargit, Trunk::Main),
            Trunk::Main => self.ask(
                StageView::CreatingTemp,
                RequestView::CreateBranch {
                    name: self.temp(),
                    start_point: pargit.config.main_branch_name,
                },
            ),
        }
    }

    /// The request of a step of the undoing.
    pub open spec fn undo_request(self, pargit: PargitView, point: UndoPoint) -> RequestView {
        match point {
            UndoPoint::AbortingMerge => RequestView::AbortMerge,
            UndoPoint::DeletingTag => RequestView::DeleteTag { name: self.tag_text(pargit.config) },
            UndoPoint::SwitchingBack => RequestView::SwitchTo { branch: self.branch() },
            UndoPoint::DeletingTemp => RequestView::DeleteBranch { name: self.temp() },
        }
    }

    /// The step that asks for `point` of the undoing, which will end in
    /// `error`.
    pub open spec fn undoing(self, pargit: PargitView, point: UndoPoint, error: FlowErrorView) -> StepView<
        ReleaseFinishFlowView,
        (),
    > {
        self.ask(StageView::Undoing { point, error }, self.undo_request(pargit, point))
    }

    /// The failure of a release whose tag could not be made or whose push was
    /// rejected.
    pub open spec fn not_released(self, reply: ReplyView) -> FlowErrorView {
        FlowErrorView::RolledBack { kind: self.kind, message: message_of(reply) }
    }

    /// A step of the deletion of the release branch as a step of the finish.
    /// The release stands by then, so a failure leaves it stranded.
    pub open spec fn deleting(self, step: StepView<DeleteFlowView, ()>) -> StepView<
        ReleaseFinishFlowView,
        (),
    > {
        match step {
            StepView::Ask(inner, request) => self.ask(StageView::Deleting { inner }, request),
            StepView::Done(_) => StepView::Done(()),
            StepView::Failed(e) => StepView::Stranded(e),
            StepView::Stranded(e) => StepView::Stranded(e),
        }
    }

    /// The step after a reply to one of the checks.
    pub open spec fn checked(self, pargit: PargitView, point: CheckPoint, reply: ReplyView) -> StepView<
        ReleaseFinishFlowView,
        (),
    > {
        match point {
            CheckPoint::Building => match reply {
                ReplyView::Done => self.ask(
                    StageView::Checking(CheckPoint::Dirty),
                    RequestView::IsDirty,
                ),
                ReplyView::Failed { message } => StepView::Failed(
                    FlowErrorView::BuildFailed { message },
                ),
                _ => StepView::Failed(FlowErrorView::UnexpectedReply),
            },
            CheckPoint::Dirty => match reply {
                ReplyView::Flag(dirty) => if dirty {
                    StepView::Failed(FlowErrorView::DirtyAfterBuild)
                } else {
                    self.checking_trunk(pargit, Trunk::Develop)
                },
                _ => StepView::Failed(failure_of(reply)),
            },
            CheckPoint::UpToDate(trunk) => match reply {
                ReplyView::Flag(up_to_date) => if up_to_date {
                    self.after_trunk(pargit, trunk)
                } else if self.options.no_pull {
                    StepView::Failed(
                        FlowErrorView::BehindRemote { branch: trunk_text(pargit.config, trunk) },
                    )
                } else {
                    self.ask(
                        StageView::Checking(CheckPoint::Pulling(trunk)),
                        RequestView::Pull {
                            branch: trunk_text(pargit.config, trunk),
                            ff_only: true,
                        },
                    )
                },
                _ => StepView::Failed(failure_of(reply)),
            },
            CheckPoint::Pulling(trunk) => match reply {
                ReplyView::Done => self.ask(
                    StageView::Checking(CheckPoint::Rechecking(trunk)),
                    RequestView::IsUpToDate { branch: trunk_text(pargit.config, trunk) },
                ),
                _ => StepView::Failed(failure_of(reply)),
            },
            CheckPoint::Rechecking(trunk) => match reply {
                ReplyView::Flag(up_to_date) => if up_to_date {
                    self.after_trunk(pargit, trunk)
                } else {
                    StepView::Failed(
                        FlowErrorView::StillBehind { branch: trunk_text(pargit.config, trunk) },
                    )
                },
                _ => StepView::Failed(failure_of(reply)),
            },
        }
    }

    /// The step after a reply to one of the steps of the undoing. The undoing
    /// goes on whatever the reply is: a merge that failed is given up or the
    /// tag is deleted, the release branch is checked out again, the temporary
    /// branch is deleted, and the finish ends in the failure that caused the
    /// undoing.
    pub open spec fn undone(self, pargit: PargitView, point: UndoPoint, error: FlowErrorView) -> StepView<
        ReleaseFinishFlowView,
        (),
    > {
        match point {
            UndoPoint::AbortingMerge => self.undoing(pargit, UndoPoint::SwitchingBack, error),
            UndoPoint::DeletingTag => self.undoing(pargit, UndoPoint::SwitchingBack, error),
            UndoPoint::SwitchingBack => self.undoing(pargit, UndoPoint::DeletingTemp, error),
            UndoPoint::DeletingTemp => StepView::Failed(error),
        }
    }

    /// The request of a step of the tidying.
    pub open spec fn tidy_request(self, pargit: PargitView, point: TidyPoint) -> RequestView {
        match point {
            TidyPoint::SwitchingToMain => RequestView::SwitchTo {
                branch: pargit.config.main_branch_name,
            },
            TidyPoint::MergingTemp => RequestView::Merge {
                branch: self.temp(),
                message: temp_merge_message(),
            },
            TidyPoint::PushingTags => RequestView::PushTags,
            TidyPoint::SwitchingToDevelop => RequestView::SwitchTo {
                branch: pargit.config.develop_branch_name,
            },
            TidyPoint::MergingMain => RequestView::Merge {
                branch: pargit.config.main_branch_name,
                message: main_merge_message(pargit.config.main_branch_name),
            },
            TidyPoint::PushingDevelop => RequestView::Push {
                source: pargit.config.develop_branch_name,
                target: pargit.config.develop_branch_name,
                track: false,
            },
            TidyPoint::DeletingTemp => RequestView::DeleteBranch { name: self.temp() },
        }
    }

    /// The step of the tidying that follows `point`, if one does.
    pub open spec fn tidy_next(point: TidyPoint) -> Option<TidyPoint> {
        match point {
            TidyPoint::SwitchingToMain => Some(TidyPoint::MergingTemp),
            TidyPoint::MergingTemp => Some(TidyPoint::PushingTags),
            TidyPoint::PushingTags => Some(TidyPoint::SwitchingToDevelop),
            TidyPoint::SwitchingToDevelop => Some(TidyPoint::MergingMain),
            TidyPoint::MergingMain => Some(TidyPoint::PushingDevelop),
            TidyPoint::PushingDevelop => Some(TidyPoint::DeletingTemp),
            TidyPoint::DeletingTemp => None,
        }
    }

    /// The step that asks for `point` of the tidying.
    pub open spec fn tidying(self, pargit: PargitView, point: TidyPoint) -> StepView<
        ReleaseFinishFlowView,
        (),
    > {
        self.ask(StageView::Tidying(point), self.tidy_request(pargit, point))
    }

    /// The step after a reply to one of the steps of the tidying. A failure
    /// leaves the release stranded; the release branch is deleted last.
    pub open spec fn tidied(self, pargit: PargitView, point: TidyPoint, reply: ReplyView) -> StepView<
        ReleaseFinishFlowView,
        (),
    > {
        if reply is Done || reply is Text {
            match ReleaseFrameView::tidy_next(point) {
                Some(next) => self.tidying(pargit, next),
                None => self.deleting(DeleteFlowView::begun(self.kind, Some(self.name))),
            }
        } else {
            StepView::Stranded(failure_of(reply))
        }
    }

}

impl ReleaseFinishFlowView {
    /// The first step of the finish: with a name it checks the release branch
    /// out, without one it asks which branch is checked out.
    pub open spec fn begun(
        kind: ObjectKind,
        name: Option<Seq<char>>,
        tag: Option<Seq<char>>,
        options: ReleaseOptions,
    ) -> StepView<ReleaseFinishFlowView, ()> {
        match name {
            Some(name) => (ReleaseFrameView { kind, name, tag, options }).switching_to_release(),
            None => (ReleaseFrameView { kind, name: Seq::empty(), tag, options }).ask(
                StageView::Naming,
                RequestView::CurrentBranch,
            ),
        }
    }

    /// The step after `reply`.
    ///
    /// Up to the creation of the temporary branch a failure ends the finish
    /// with nothing done. From there to the push a failure is undone: the
    /// release branch is checked out again and the temporary branch deleted;
    /// before that a merge that failed is given up, and the tag is deleted
    /// where it was the tag or the push that failed. Behind the push nothing
    /// is undone.
    pub open spec fn resumed(self, pargit: PargitView, reply: ReplyView) -> StepView<
        ReleaseFinishFlowView,
        (),
    > {
        let frame = self.frame;
        match self.stage {
            StageView::Naming => match named_by(frame.kind, reply) {
                Ok(name) => (ReleaseFrameView { name, ..frame }).switching_to_release(),
                Err(e) => StepView::Failed(e),
            },
            StageView::SwitchingToRelease => match reply {
                ReplyView::Done => frame.checking(pargit),
                _ => StepView::Failed(failure_of(reply)),
            },
            StageView::Checking(point) => frame.checked(pargit, point, reply),
            StageView::CreatingTemp => match reply {
                ReplyView::Done => frame.ask(
                    StageView::SwitchingToTemp,
                    RequestView::SwitchTo { branch: frame.temp() },
                ),
                _ => StepView::Failed(failure_of(reply)),
            },
            StageView::SwitchingToTemp => match reply {
                ReplyView::Done => frame.ask(
                    StageView::Merging,
                    RequestView::Merge {
                        branch: frame.branch(),
                        message: release_merge_message(frame.kind, frame.name),
                    },
                ),
                _ => frame.undoing(pargit, UndoPoint::SwitchingBack, failure_of(reply)),
            },
            StageView::Merging => match reply {
                ReplyView::Done => frame.ask(
                    StageView::Tagging,
                    RequestView::CreateTag { name: frame.tag_text(pargit.config) },
                ),
                ReplyView::Failed { message } => frame.undoing(
                    pargit,
                    UndoPoint::AbortingMerge,
                    FlowErrorView::MergeFailed { message },
                ),
                _ => frame.undoing(pargit, UndoPoint::AbortingMerge, FlowErrorView::UnexpectedReply),
            },
            StageView::Tagging => match reply {
                ReplyView::Done => frame.ask(
                    StageView::Pushing,
                    RequestView::Push {
                        source: frame.temp(),
                        target: pargit.config.main_branch_name,
                        track: false,
                    },
                ),
                _ => frame.undoing(pargit, UndoPoint::DeletingTag, frame.not_released(reply)),
            },
            StageView::Pushing => if reply is Done || reply is Text {
                frame.tidying(pargit, TidyPoint::SwitchingToMain)
            } else {
                frame.undoing(pargit, UndoPoint::DeletingTag, frame.not_released(reply))
            },
            StageView::Undoing { point, error } => frame.undone(pargit, point, error),
            StageView::Tidying(point) => frame.tidied(pargit, point, reply),
            StageView::Deleting { inner } => frame.deleting(inner.resumed(pargit, reply)),
        }
    }
}

/// The name of a trunk.
pub fn trunk_name(config: &Config, trunk: Trunk) -> (r: String)
    ensures
        r@ == trunk_text(config@, trunk),
{
    match trunk {
        Trunk::Develop => config.develop_branch_name.clone(),
        Trunk::Main => config.main_branch_name.clone(),
    }
}

/// What a reply that reports a failure says of it.
pub fn reply_message(reply: Reply) -> (r: String)
    ensures
        r@ == message_of(reply@),
{
    match reply {
        Reply::Failed { message } => message,
        _ => String::new(),
    }
}

/// The name of the temporary branch on which the release `name` is put
/// together.
pub fn temp_branch_name(kind: ObjectKind, name: &str) -> (r: String)
    ensures
        r@ == temp_branch_text(kind, name@),
{
    proof {
        reveal_strlit("-");
    }
    assert("-"@ =~= seq!['-']);
    let a = joined("in-progress-", kind.name());
    let b = joined(a.as_str(), "-");
    let r = joined(b.as_str(), name);
    assert(r@ =~= temp_branch_text(kind, name@));
    r
}

impl ReleaseFrame {
    fn branch_name(&self) -> (r: String)
        ensures
            r@ == self@.branch(),
    {
        self.kind.branch_name(self.name.as_str())
    }

    fn temp_name(&self) -> (r: String)
        ensures
            r@ == self@.temp(),
    {
        temp_branch_name(self.kind, self.name.as_str())
    }

    fn tag_name(&self, config: &Config) -> (r: String)
        ensures
            r@ == self@.tag_text(config@),
    {
        match &self.tag {
            Some(tag) => tag.clone(),
            None => config.get_tag_name(self.name.as_str(), None),
        }
    }

    fn ask(self, stage: Stage, request: Request) -> (r: Step<ReleaseFinishFlow, ()>)
        ensures
            r@ == self@.ask(stage@, request@),
    {
        Step::Ask(ReleaseFinishFlow { frame: self, stage }, request)
    }

    fn switching_to_release(self) -> (r: Step<ReleaseFinishFlow, ()>)
        ensures
            r@ == self@.switching_to_release(),
    {
        let branch = self.branch_name();
        self.ask(Stage::SwitchingToRelease, Request::SwitchTo { branch })
    }

    fn checking(self, pargit: &Pargit) -> (r: Step<ReleaseFinishFlow, ()>)
        ensures
            r@ == self@.checking(pargit@),
    {
        match pargit.type_ {
            Some(ProjectType::Rust) => self.ask(
                Stage::Checking(CheckPoint::Building),
                Request::Verify { command: pargit.config.compilation_command() },
            ),
            None => self.ask(Stage::Checking(CheckPoint::Dirty), Request::IsDirty),
        }
    }

    fn checking_trunk(self, pargit: &Pargit, trunk: Trunk) -> (r: Step<ReleaseFinishFlow, ()>)
        ensures
            r@ == self@.checking_trunk(pargit@, trunk),
    {
        self.ask(
            Stage::Checking(CheckPoint::UpToDate(trunk)),
            Request::IsUpToDate { branch: trunk_name(&pargit.config, trunk) },
        )
    }

    fn after_trunk(self, pargit: &Pargit, trunk: Trunk) -> (r: Step<ReleaseFinishFlow, ()>)
        ensures
            r@ == self@.after_trunk(pargit@, trunk),
    {
        match trunk {
            Trunk::Develop => self.checking_trunk(pargit, Trunk::Main),
            Trunk::Main => {
                let name = self.temp_name();
                self.ask(
                    Stage::CreatingTemp,
                    Request::CreateBranch {
                        name,
                        start_point: pargit.config.main_branch_name.clone(),
                    },
                )
            },
        }
    }

    fn undoing(self, pargit: &Pargit, point: UndoPoint, error: FlowError) -> (r: Step<
        ReleaseFinishFlow,
        (),
    >)
        ensures
            r@ == self@.undoing(pargit@, point, error@),
    {
        let request = match point {
            UndoPoint::AbortingMerge => Request::AbortMerge,
            UndoPoint::DeletingTag => Request::DeleteTag { name: self.tag_name(&pargit.config) },
            UndoPoint::SwitchingBack => Request::SwitchTo { branch: self.branch_name() },
            UndoPoint::DeletingTemp => Request::DeleteBranch { name: self.temp_name() },
        };
        self.ask(Stage::Undoing { point, error }, request)
    }

    fn not_released(&self, reply: Reply) -> (r: FlowError)
        ensures
            r@ == self@.not_released(reply@),
    {
        FlowError::RolledBack { kind: self.kind, message: reply_message(reply) }
    }

    fn deleting(self, step: Step<DeleteFlow, ()>) -> (r: Step<ReleaseFinishFlow, ()>)
        ensures
            r@ == self@.deleting(step@),
    {
        match step {
            Step::Ask(inner, request) => self.ask(Stage::Deleting { inner }, request),
            Step::Done(_) => Step::Done(()),
            Step::Failed(e) => Step::Stranded(e),
            Step::Stranded(e) => Step::Stranded(e),
        }
    }

    fn checked(self, pargit: &Pargit, point: CheckPoint, reply: Reply) -> (r: Step<
        ReleaseFinishFlow,
        (),
    >)
        ensures
            r@ == self@.checked(pargit@, point, reply@),
    {
        match point {
            CheckPoint::Building => match reply {
                Reply::Done => self.ask(Stage::Checking(CheckPoint::Dirty), Request::IsDirty),
                Reply::Failed { message } => Step::Failed(FlowError::BuildFailed { message }),
                _ => Step::Failed(FlowError::UnexpectedReply),
            },
            CheckPoint::Dirty => match reply {
                Reply::Flag(dirty) => {
                    if dirty {
                        Step::Failed(FlowError::DirtyAfterBuild)
                    } else {
                        self.checking_trunk(pargit, Trunk::Develop)
                    }
                },
                _ => Step::Failed(reply_failure(reply)),
            },
            CheckPoint::UpToDate(trunk) => match reply {
                Reply::Flag(up_to_date) => {
                    if up_to_date {
                        self.after_trunk(pargit, trunk)
                    } else if self.options.no_pull {
                        Step::Failed(
                            FlowError::BehindRemote { branch: trunk_name(&pargit.config, trunk) },
                        )
                    } else {
                        self.ask(
                            Stage::Checking(CheckPoint::Pulling(trunk)),
                            Request::Pull {
                                branch: trunk_name(&pargit.config, trunk),
                                ff_only: true,
                            },
                        )
                    }
                },
                _ => Step::Failed(reply_failure(reply)),
            },
            CheckPoint::Pulling(trunk) => match reply {
                Reply::Done => self.ask(
                    Stage::Checking(CheckPoint::Rechecking(trunk)),
                    Request::IsUpToDate { branch: trunk_name(&pargit.config, trunk) },
                ),
                _ => Step::Failed(reply_failure(reply)),
            },
            CheckPoint::Rechecking(trunk) => match reply {
                Reply::Flag(up_to_date) => {
                    if up_to_date {
                        self.after_trunk(pargit, trunk)
                    } else {
                        Step::Failed(
                            FlowError::StillBehind { branch: trunk_name(&pargit.config, trunk) },
                        )
                    }
                },
                _ => Step::Failed(reply_failure(reply)),
            },
        }
    }

    fn undone(self, pargit: &Pargit, point: UndoPoint, error: FlowError) -> (r: Step<
        ReleaseFinishFlow,
        (),
    >)
        ensures
            r@ == self@.undone(pargit@, point, error@),
    {
        match point {
            UndoPoint::AbortingMerge => self.undoing(pargit, UndoPoint::SwitchingBack, error),
            UndoPoint::DeletingTag => self.undoing(pargit, UndoPoint::SwitchingBack, error),
            UndoPoint::SwitchingBack => self.undoing(pargit, UndoPoint::DeletingTemp, error),
            UndoPoint::DeletingTemp => Step::Failed(error),
        }
    }

    fn tidy_request(&self, pargit: &Pargit, point: TidyPoint) -> (r: Request)
        ensures
            r@ == self@.tidy_request(pargit@, point),
    {
        match point {
            TidyPoint::SwitchingToMain => Request::SwitchTo {
                branch: pargit.config.main_branch_name.clone(),
            },
            TidyPoint::MergingTemp => Request::Merge {
                branch: self.temp_name(),
                message: String::from_str("Merge temporary release branch"),
            },
            TidyPoint::PushingTags => Request::PushTags,
            TidyPoint::SwitchingToDevelop => Request::SwitchTo {
                branch: pargit.config.develop_branch_name.clone(),
            },
            TidyPoint::MergingMain => {
                let a = joined("Merge ", pargit.config.main_branch_name.as_str());
                Request::Merge {
                    branch: pargit.config.main_branch_name.clone(),
                    message: joined(a.as_str(), " branch"),
                }
            },
            TidyPoint::PushingDevelop => Request::Push {
                source: pargit.config.develop_branch_name.clone(),
                target: pargit.config.develop_branch_name.clone(),
                track: false,
            },
            TidyPoint::DeletingTemp => Request::DeleteBranch { name: self.temp_name() },
        }
    }

    fn tidying(self, pargit: &Pargit, point: TidyPoint) -> (r: Step<ReleaseFinishFlow, ()>)
        ensures
            r@ == self@.tidying(pargit@, point),
    {
        let request = self.tidy_request(pargit, point);
        self.ask(Stage::Tidying(point), request)
    }

    fn tidied(self, pargit: &Pargit, point: TidyPoint, reply: Reply) -> (r: Step<
        ReleaseFinishFlow,
        (),
    >)
        ensures
            r@ == self@.tidied(pargit@, point, reply@),
    {
        let went_through = match &reply {
            Reply::Done => true,
            Reply::Text(_) => true,
            _ => false,
        };
        if went_through {
            let next = match point {
                TidyPoint::SwitchingToMain => Some(TidyPoint::MergingTemp),
                TidyPoint::MergingTemp => Some(TidyPoint::PushingTags),
                TidyPoint::PushingTags => Some(TidyPoint::SwitchingToDevelop),
                TidyPoint::SwitchingToDevelop => Some(TidyPoint::MergingMain),
                TidyPoint::MergingMain => Some(TidyPoint::PushingDevelop),
                TidyPoint::PushingDevelop => Some(TidyPoint::DeletingTemp),
                TidyPoint::DeletingTemp => None,
            };
            match next {
                Some(next) => self.tidying(pargit, next),
                None => {
                    let step = DeleteFlow::begin(self.kind, Some(self.name.clone()));
                    self.deleting(step)
                },
            }
        } else {
            Step::Stranded(reply_failure(reply))
        }
    }

}

impl ReleaseFinishFlow {
    /// Begins the finish of the release `name` of `kind`, or of the release
    /// whose branch is checked out where no name is given. `tag` is the tag
    /// that was resolved with the release, if one was.
    pub fn begin(kind: ObjectKind, name: Option<String>, tag: Option<String>, options: ReleaseOptions) -> (r:
        Step<ReleaseFinishFlow, ()>)
        ensures
            r@ == ReleaseFinishFlowView::begun(kind, name.deep_view(), tag.deep_view(), options),
    {
        match name {
            Some(name) => (ReleaseFrame { kind, name, tag, options }).switching_to_release(),
            None => (ReleaseFrame { kind, name: String::new(), tag, options }).ask(
                Stage::Naming,
                Request::CurrentBranch,
            ),
        }
    }

    /// Goes on with the finish after `reply`.
    pub fn resume(self, pargit: &Pargit, reply: Reply) -> (r: Step<ReleaseFinishFlow, ()>)
        ensures
            r@ == self@.resumed(pargit@, reply@),
    {
        let ReleaseFinishFlow { frame, stage } = self;
        match stage {
            Stage::Naming => match name_from_reply(frame.kind, reply) {
                Ok(name) => (ReleaseFrame { name, ..frame }).switching_to_release(),
                Err(e) => Step::Failed(e),
            },
            Stage::SwitchingToRelease => match reply {
                Reply::Done => frame.checking(pargit),
                _ => Step::Failed(reply_failure(reply)),
            },
            Stage::Checking(point) => frame.checked(pargit, point, reply),
            Stage::CreatingTemp => match reply {
                Reply::Done => {
                    let branch = frame.temp_name();
                    frame.ask(Stage::SwitchingToTemp, Request::SwitchTo { branch })
                },
                _ => Step::Failed(reply_failure(reply)),
            },
            Stage::SwitchingToTemp => match reply {
                Reply::Done => {
                    let branch = frame.branch_name();
                    let a = joined("Merge ", frame.kind.name());
                    let b = joined(a.as_str(), " branch ");
                    let message = joined(b.as_str(), frame.name.as_str());
                    assert(message@ =~= release_merge_message(frame.kind, frame.name@));
                    frame.ask(Stage::Merging, Request::Merge { branch, message })
                },
                _ => frame.undoing(pargit, UndoPoint::SwitchingBack, reply_failure(reply)),
            },
            Stage::Merging => match reply {
                Reply::Done => {
                    let name = frame.tag_name(&pargit.config);
                    frame.ask(Stage::Tagging, Request::CreateTag { name })
                },
                Reply::Failed { message } => frame.undoing(
                    pargit,
                    UndoPoint::AbortingMerge,
                    FlowError::MergeFailed { message },
                ),
                _ => frame.undoing(pargit, UndoPoint::AbortingMerge, FlowError::UnexpectedReply),
            },
            Stage::Tagging => match reply {
                Reply::Done => {
                    let source = frame.temp_name();
                    frame.ask(
                        Stage::Pushing,
                        Request::Push {
                            source,
                            target: pargit.config.main_branch_name.clone(),
                            track: false,
                        },
                    )
                },
                _ => {
                    let error = frame.not_released(reply);
                    frame.undoing(pargit, UndoPoint::DeletingTag, error)
                },
            },
            Stage::Pushing => match reply {
                Reply::Done => frame.tidying(pargit, TidyPoint::SwitchingToMain),
                Reply::Text(_) => frame.tidying(pargit, TidyPoint::SwitchingToMain),
                _ => {
                    let error = frame.not_released(reply);
                    frame.undoing(pargit, UndoPoint::DeletingTag, error)
                },
            },
            Stage::Undoing { point, error } => frame.undone(pargit, point, error),
            Stage::Tidying(point) => frame.tidied(pargit, point, reply),
            Stage::Deleting { inner } => {
                let step = inner.resume(pargit, reply);
                frame.deleting(step)
            },
        }
    }
}

} // verus!
