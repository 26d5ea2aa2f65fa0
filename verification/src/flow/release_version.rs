//! Releasing a version in one go: the release is started, the rewritten
//! version files are committed, and the release is finished. Whatever fails
//! behind the start, the release branch is deleted again.

use crate::commands::{BumpKind, ReleaseOptions, VersionSpec, VersionSpecView};
use crate::exit_stack::{
    lemma_deep_entries_push, lemma_deep_entries_reverse, lemma_deep_items, ExitStack,
};
use crate::flow::release_finish::{ReleaseFinishFlow, ReleaseFinishFlowView};
use crate::flow::release_start::{ReleaseStartFlow, ReleaseStartFlowView};
use crate::flow::unwind::{Compensation, CompensationView, UnwindFlow, UnwindFlowView};
use crate::flow::{
    failure_of, reply_failure, FlowError, FlowErrorView, Reply, ReplyView, Request, RequestView,
    Step, StepView,
};
use crate::object_kind::ObjectKind;
use crate::pargit::{Pargit, PargitView};
use crate::release::{Release, ReleaseView};
use crate::text::joined;
use vstd::prelude::*;

verus! {

/// What stays the same while a version is released, and what is to be undone
/// should the release be given up.
#[derive(Debug, PartialEq, Eq)]
pub struct VersionFrame {
    pub kind: ObjectKind,
    pub options: ReleaseOptions,
    pub history: ExitStack<Compensation>,
}

/// What a [`VersionFrame`] stands for.
pub struct VersionFrameView {
    pub kind: ObjectKind,
    pub options: ReleaseOptions,
    pub history: Seq<(Seq<char>, CompensationView)>,
}

impl View for VersionFrame {
    type V = VersionFrameView;

    open spec fn view(&self) -> VersionFrameView {
        VersionFrameView {
            kind: self.kind,
            options: self.options,
            history: self.history.deep_view(),
        }
    }
}

/// Where the release of a version stands.
#[derive(Debug, PartialEq, Eq)]
pub enum VersionStage {
    /// The release is started.
    Starting { inner: ReleaseStartFlow },
    /// It waits to hear whether the working tree holds changes.
    CheckingDirty { release: Release },
    /// It waits for the commit of the rewritten version files.
    Committing { release: Release },
    /// The release is finished.
    Finishing { inner: ReleaseFinishFlow },
    /// The release failed with `error`, and the branch is deleted again.
    /// `stranded` says that the release stands upstream all the same.
    Unwinding { inner: UnwindFlow, error: FlowError, stranded: bool },
}

/// What a [`VersionStage`] stands for.
pub enum VersionStageView {
    Starting { inner: ReleaseStartFlowView },
    CheckingDirty { release: ReleaseView },
    Committing { release: ReleaseView },
    Finishing { inner: ReleaseFinishFlowView },
    Unwinding { inner: UnwindFlowView, error: FlowErrorView, stranded: bool },
}

impl View for VersionStage {
    type V = VersionStageView;

    open spec fn view(&self) -> VersionStageView {
        match self {
            VersionStage::Starting { inner } => VersionStageView::Starting { inner: inner@ },
            VersionStage::CheckingDirty { release } => VersionStageView::CheckingDirty {
                release: release@,
            },
            VersionStage::Committing { release } => VersionStageView::Committing {
                release: release@,
            },
            VersionStage::Finishing { inner } => VersionStageView::Finishing { inner: inner@ },
            VersionStage::Unwinding { inner, error, stranded } => VersionStageView::Unwinding {
                inner: inner@,
                error: error@,
                stranded: *stranded,
            },
        }
    }
}

/// The release of a version that is under way.
#[derive(Debug, PartialEq, Eq)]
pub struct ReleaseVersionFlow {
    pub frame: VersionFrame,
    pub stage: VersionStage,
}

/// What a [`ReleaseVersionFlow`] stands for.
pub struct ReleaseVersionFlowView {
    pub frame: VersionFrameView,
    pub stage: VersionStageView,
}

impl View for ReleaseVersionFlow {
    type V = ReleaseVersionFlowView;

    open spec fn view(&self) -> ReleaseVersionFlowView {
        ReleaseVersionFlowView { frame: self.frame@, stage: self.stage@ }
    }
}

impl DeepView for ReleaseVersionFlow {
    type V = ReleaseVersionFlowView;

    open spec fn deep_view(&self) -> ReleaseVersionFlowView {
        self@
    }
}

/// What the deletion of the branch of a release of `kind` undoes, in words.
pub open spec fn history_words(kind: ObjectKind) -> Seq<char> {
    "Delete "@ + kind.name_text() + " branch"@
}

/// The message of the commit that holds the rewritten version files.
pub open spec fn bump_message() -> Seq<char> {
    "pargit: Bump version"@
}

impl VersionFrameView {
    /// The flow at `stage`, asking `request`.
    pub open spec fn ask(self, stage: VersionStageView, request: RequestView) -> StepView<
        ReleaseVersionFlowView,
        (),
    > {
        StepView::Ask(ReleaseVersionFlowView { frame: self, stage }, request)
    }

    /// A step of the start as a step of the release. Once the release is
    /// started, the deletion of its branch is remembered, and the working
    /// tree is looked at.
    pub open spec fn started(self, step: StepView<ReleaseStartFlowView, ReleaseView>) -> StepView<
        ReleaseVersionFlowView,
        (),
    > {
        match step {
            StepView::Ask(inner, request) => self.ask(VersionStageView::Starting { inner }, request),
            StepView::Done(release) => (VersionFrameView {
                history: self.history.push(
                    (
                        history_words(self.kind),
                        CompensationView::DeleteObject { kind: self.kind, name: Some(release.name) },
                    ),
                ),
                ..self
            }).ask(VersionStageView::CheckingDirty { release }, RequestView::IsDirty),
            StepView::Failed(e) => StepView::Failed(e),
            StepView::Stranded(e) => StepView::Failed(e),
        }
    }

    /// The first step of the finish of the release that was started.
    pub open spec fn finish(self, pargit: PargitView, release: ReleaseView) -> StepView<
        ReleaseVersionFlowView,
        (),
    > {
        self.finishing(
            ReleaseFinishFlowView::begun(
                self.kind,
                Some(release.name),
                Some(release.tag),
                self.options,
            ),
        )
    }

    /// A step of the finish as a step of the release. Only a finish that
    /// went through lets the release keep its branch deleted for good: any
    /// failure undoes what was remembered.
    pub open spec fn finishing(self, step: StepView<ReleaseFinishFlowView, ()>) -> StepView<
        ReleaseVersionFlowView,
        (),
    > {
        match step {
            StepView::Ask(inner, request) => self.ask(
                VersionStageView::Finishing { inner },
                request,
            ),
            StepView::Done(_) => StepView::Done(()),
            StepView::Failed(e) => self.unwinding(e, false),
            StepView::Stranded(e) => self.unwinding(e, true),
        }
    }

    /// The first step of the undoing after `error`.
    pub open spec fn unwinding(self, error: FlowErrorView, stranded: bool) -> StepView<
        ReleaseVersionFlowView,
        (),
    > {
        (VersionFrameView { history: Seq::empty(), ..self }).unwound(
            error,
            stranded,
            UnwindFlowView::starting(self.history.reverse(), 0),
        )
    }

    /// A step of the undoing as a step of the release. The release ends in
    /// the failure that caused the undoing; where the release stands
    /// upstream, it is not undone and the end says so.
    pub open spec fn unwound(
        self,
        error: FlowErrorView,
        stranded: bool,
        step: StepView<UnwindFlowView, ()>,
    ) -> StepView<ReleaseVersionFlowView, ()> {
        match step {
            StepView::Ask(inner, request) => self.ask(
                VersionStageView::Unwinding { inner, error, stranded },
                request,
            ),
            _ => if stranded {
                StepView::Stranded(error)
            } else {
                StepView::Failed(error)
            },
        }
    }
}

impl ReleaseVersionFlowView {
    /// The first step of the release of the version that a bump of
    /// `bump_kind` leads to.
    pub open spec fn begun(
        pargit: PargitView,
        bump_kind: BumpKind,
        release_kind: ObjectKind,
        options: ReleaseOptions,
    ) -> StepView<ReleaseVersionFlowView, ()> {
        (VersionFrameView { kind: release_kind, options, history: Seq::empty() }).started(
            ReleaseStartFlowView::begun(pargit, VersionSpecView::Bump(bump_kind), release_kind, None),
        )
    }

    /// The step after `reply`.
    pub open spec fn resumed(self, pargit: PargitView, reply: ReplyView) -> StepView<
        ReleaseVersionFlowView,
        (),
    > {
        match self.stage {
            VersionStageView::Starting { inner } => self.frame.started(inner.resumed(pargit, reply)),
            VersionStageView::CheckingDirty { release } => match reply {
                ReplyView::Flag(dirty) => if dirty {
                    self.frame.ask(
                        VersionStageView::Committing { release },
                        RequestView::CommitAll { message: bump_message() },
                    )
                } else {
                    self.frame.finish(pargit, release)
                },
                _ => self.frame.unwinding(failure_of(reply), false),
            },
            VersionStageView::Committing { release } => match reply {
                ReplyView::Done => self.frame.finish(pargit, release),
                _ => self.frame.unwinding(failure_of(reply), false),
            },
            VersionStageView::Finishing { inner } => self.frame.finishing(
                inner.resumed(pargit, reply),
            ),
            VersionStageView::Unwinding { inner, error, stranded } => self.frame.unwound(
                error,
                stranded,
                inner.resumed(pargit, reply),
            ),
        }
    }
}

impl VersionFrame {
    fn ask(self, stage: VersionStage, request: Request) -> (r: Step<ReleaseVersionFlow, ()>)
        ensures
            r@ == self@.ask(stage@, request@),
    {
        Step::Ask(ReleaseVersionFlow { frame: self, stage }, request)
    }

    fn started(self, step: Step<ReleaseStartFlow, Release>) -> (r: Step<ReleaseVersionFlow, ()>)
        ensures
            r@ == self@.started(step@),
    {
        match step {
            Step::Ask(inner, request) => self.ask(VersionStage::Starting { inner }, request),
            Step::Done(release) => {
                let VersionFrame { kind, options, mut history } = self;
                let ghost before = history@;
                let a = joined("Delete ", kind.name());
                let words = joined(a.as_str(), " branch");
                assert(words@ =~= history_words(kind));
                let action = Compensation::DeleteObject { kind, name: Some(release.name.clone()) };
                history.remember(words, action);
                proof {
                    lemma_deep_entries_push(before, history_words(kind), action);
                }
                let frame = VersionFrame { kind, options, history };
                frame.ask(VersionStage::CheckingDirty { release }, Request::IsDirty)
            },
            Step::Failed(e) => Step::Failed(e),
            Step::Stranded(e) => Step::Failed(e),
        }
    }

    fn finish(self, pargit: &Pargit, release: Release) -> (r: Step<ReleaseVersionFlow, ()>)
        ensures
            r@ == self@.finish(pargit@, release@),
    {
        let Release { name, tag, version, version_files } = release;
        let step = ReleaseFinishFlow::begin(self.kind, Some(name), Some(tag), self.options);
        self.finishing(step)
    }

    fn finishing(self, step: Step<ReleaseFinishFlow, ()>) -> (r: Step<ReleaseVersionFlow, ()>)
        ensures
            r@ == self@.finishing(step@),
    {
        match step {
            Step::Ask(inner, request) => self.ask(VersionStage::Finishing { inner }, request),
            Step::Done(_) => {
                let mut frame = self;
                frame.history.forget();
                Step::Done(())
            },
            Step::Failed(e) => self.unwinding(e, false),
            Step::Stranded(e) => self.unwinding(e, true),
        }
    }

    fn unwinding(self, error: FlowError, stranded: bool) -> (r: Step<ReleaseVersionFlow, ()>)
        ensures
            r@ == self@.unwinding(error@, stranded),
    {
        let VersionFrame { kind, options, mut history } = self;
        let ghost before = history@;
        let items = history.unwind();
        proof {
            lemma_deep_items(items);
            lemma_deep_entries_reverse(before);
            assert(history.deep_view() =~= Seq::empty());
        }
        let frame = VersionFrame { kind, options, history };
        frame.unwound(error, stranded, UnwindFlow::starting(items, 0))
    }

    fn unwound(self, error: FlowError, stranded: bool, step: Step<UnwindFlow, ()>) -> (r: Step<
        ReleaseVersionFlow,
        (),
    >)
        ensures
            r@ == self@.unwound(error@, stranded, step@),
    {
        match step {
            Step::Ask(inner, request) => self.ask(
                VersionStage::Unwinding { inner, error, stranded },
                request,
            ),
            _ => {
                if stranded {
                    Step::Stranded(error)
                } else {
                    Step::Failed(error)
                }
            },
        }
    }
}

impl ReleaseVersionFlow {
    /// Begins the release of the version that a bump of `bump_kind` leads to.
    pub fn begin(pargit: &Pargit, bump_kind: BumpKind, release_kind: ObjectKind, options: ReleaseOptions) -> (r:
        Step<ReleaseVersionFlow, ()>)
        ensures
            r@ == ReleaseVersionFlowView::begun(pargit@, bump_kind, release_kind, options),
    {
        let history: ExitStack<Compensation> = ExitStack::new();
        assert(history.deep_view() =~= Seq::empty());
        let frame = VersionFrame { kind: release_kind, options, history };
        let step = ReleaseStartFlow::begin(pargit, VersionSpec::Bump(bump_kind), release_kind, None);
        frame.started(step)
    }

    /// Goes on with the release after `reply`.
    pub fn resume(self, pargit: &Pargit, reply: Reply) -> (r: Step<ReleaseVersionFlow, ()>)
        ensures
            r@ == self@.resumed(pargit@, reply@),
    {
        let ReleaseVersionFlow { frame, stage } = self;
        match stage {
            VersionStage::Starting { inner } => {
                let step = inner.resume(pargit, reply);
                frame.started(step)
            },
            VersionStage::CheckingDirty { release } => match reply {
                Reply::Flag(dirty) => {
                    if dirty {
                        frame.ask(
                            VersionStage::Committing { release },
                            Request::CommitAll { message: String::from_str("pargit: Bump version") },
                        )
                    } else {
                        frame.finish(pargit, release)
                    }
                },
                _ => frame.unwinding(reply_failure(reply), false),
            },
            VersionStage::Committing { release } => match reply {
                Reply::Done => frame.finish(pargit, release),
                _ => frame.unwinding(reply_failure(reply), false),
            },
            VersionStage::Finishing { inner } => {
                let step = inner.resume(pargit, reply);
                frame.finishing(step)
            },
            VersionStage::Unwinding { inner, error, stranded } => {
                let step = inner.resume(pargit, reply);
                frame.unwound(error, stranded, step)
            },
        }
    }
}

} // verus!
