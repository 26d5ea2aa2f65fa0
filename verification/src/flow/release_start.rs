//! Starting a release: the version is resolved, the branch is started and
//! the version files are rewritten. Where a step behind the start of the
//! branch fails, the branch is deleted again.

use crate::commands::{VersionSpec, VersionSpecView};
use crate::config::Config;
use crate::exit_stack::{
    lemma_deep_entries_push, lemma_deep_entries_reverse, lemma_deep_items, ExitStack,
};
use crate::flow::gather::{GatherFlow, GatherFlowView, Gathered, GatheredView};
use crate::flow::rewrite::{RewriteFlow, RewriteFlowView};
use crate::flow::start::{StartFlow, StartFlowView};
use crate::flow::unwind::{Compensation, CompensationView, UnwindFlow, UnwindFlowView};
use crate::flow::{
    failure_of, reply_failure, FlowError, FlowErrorView, Reply, ReplyView, Request, RequestView,
    Step, StepView,
};
use crate::object_kind::ObjectKind;
use crate::pargit::{Pargit, PargitView, ProjectType};
use crate::release::{resolve_release, resolved, Release, ReleaseView};
use crate::version_file::clone_files;
use vstd::prelude::*;

verus! {

/// What stays the same while a release is started, and what is to be undone
/// should the start be given up.
#[derive(Debug, PartialEq, Eq)]
pub struct StartFrame {
    pub spec: VersionSpec,
    pub kind: ObjectKind,
    pub from_ref: Option<String>,
    pub undo: ExitStack<Compensation>,
}

/// What a [`StartFrame`] stands for.
pub struct StartFrameView {
    pub spec: VersionSpecView,
    pub kind: ObjectKind,
    pub from_ref: Option<Seq<char>>,
    pub undo: Seq<(Seq<char>, CompensationView)>,
}

impl View for StartFrame {
    type V = StartFrameView;

    open spec fn view(&self) -> StartFrameView {
        StartFrameView {
            spec: self.spec@,
            kind: self.kind,
            from_ref: self.from_ref.deep_view(),
            undo: self.undo.deep_view(),
        }
    }
}

/// Where the start of a release stands.
#[derive(Debug, PartialEq, Eq)]
pub enum StartStage {
    /// The version files are gathered.
    Gathering { inner: GatherFlow },
    /// It waits for the tags, as there is no version file to start from.
    Listing { gathered: Gathered },
    /// It waits to hear whether the tag of the release exists.
    CheckingTag { release: Release },
    /// The branch is started.
    Starting { release: Release, inner: StartFlow },
    /// The version files are rewritten.
    Rewriting { release: Release, inner: RewriteFlow },
    /// It waits for the build that locks the new version.
    Building { release: Release },
    /// The start failed with `error`, and the branch is deleted again.
    Unwinding { inner: UnwindFlow, error: FlowError },
}

/// What a [`StartStage`] stands for.
pub enum StartStageView {
    Gathering { inner: GatherFlowView },
    Listing { gathered: GatheredView },
    CheckingTag { release: ReleaseView },
    Starting { release: ReleaseView, inner: StartFlowView },
    Rewriting { release: ReleaseView, inner: RewriteFlowView },
    Building { release: ReleaseView },
    Unwinding { inner: UnwindFlowView, error: FlowErrorView },
}

impl View for StartStage {
    type V = StartStageView;

    open spec fn view(&self) -> StartStageView {
        match self {
            StartStage::Gathering { inner } => StartStageView::Gathering { inner: inner@ },
            StartStage::Listing { gathered } => StartStageView::Listing { gathered: gathered@ },
            StartStage::CheckingTag { release } => StartStageView::CheckingTag {
                release: release@,
            },
            StartStage::Starting { release, inner } => StartStageView::Starting {
                release: release@,
                inner: inner@,
            },
            StartStage::Rewriting { release, inner } => StartStageView::Rewriting {
                release: release@,
                inner: inner@,
            },
            StartStage::Building { release } => StartStageView::Building { release: release@ },
            StartStage::Unwinding { inner, error } => StartStageView::Unwinding {
                inner: inner@,
                error: error@,
            },
        }
    }
}

/// The start of a release that is under way.
#[derive(Debug, PartialEq, Eq)]
pub struct ReleaseStartFlow {
    pub frame: StartFrame,
    pub stage: StartStage,
}

/// What a [`ReleaseStartFlow`] stands for.
pub struct ReleaseStartFlowView {
    pub frame: StartFrameView,
    pub stage: StartStageView,
}

impl View for ReleaseStartFlow {
    type V = ReleaseStartFlowView;

    open spec fn view(&self) -> ReleaseStartFlowView {
        ReleaseStartFlowView { frame: self.frame@, stage: self.stage@ }
    }
}

impl DeepView for ReleaseStartFlow {
    type V = ReleaseStartFlowView;

    open spec fn deep_view(&self) -> ReleaseStartFlowView {
        self@
    }
}

/// What the deletion of a release branch undoes, in words.
pub open spec fn undo_words() -> Seq<char> {
    "Deleting release branch"@
}

impl StartFrameView {
    /// The flow at `stage`, asking `request`.
    pub open spec fn ask(self, stage: StartStageView, request: RequestView) -> StepView<
        ReleaseStartFlowView,
        ReleaseView,
    > {
        StepView::Ask(ReleaseStartFlowView { frame: self, stage }, request)
    }

    /// A step of the gathering as a step of the start.
    pub open spec fn gathered(
        self,
        pargit: PargitView,
        step: StepView<GatherFlowView, GatheredView>,
    ) -> StepView<ReleaseStartFlowView, ReleaseView> {
        match step {
            StepView::Ask(inner, request) => self.ask(StartStageView::Gathering { inner }, request),
            StepView::Done(gathered) => if self.spec is Bump && gathered.files.len() == 0 {
                self.ask(StartStageView::Listing { gathered }, RequestView::ListTags)
            } else {
                self.resolving(pargit, gathered, Seq::empty())
            },
            StepView::Failed(e) => StepView::Failed(e),
            StepView::Stranded(e) => StepView::Failed(e),
        }
    }

    /// The step that follows once all is known that the release is resolved
    /// from: it asks whether the tag of the release exists.
    pub open spec fn resolving(
        self,
        pargit: PargitView,
        gathered: GatheredView,
        tags: Seq<Seq<char>>,
    ) -> StepView<ReleaseStartFlowView, ReleaseView> {
        match resolved(pargit.config, self.spec, gathered.files, gathered.chosen, tags) {
            Ok(release) => self.ask(
                StartStageView::CheckingTag { release },
                RequestView::HasTag { name: release.tag },
            ),
            Err(reason) => StepView::Failed(FlowErrorView::Resolve { reason }),
        }
    }

    /// A step of the start of the branch as a step of the start of the
    /// release. Once the branch stands, its deletion is remembered and the
    /// version files are rewritten to the version of the release.
    pub open spec fn starting(
        self,
        pargit: PargitView,
        release: ReleaseView,
        step: StepView<StartFlowView, ()>,
    ) -> StepView<ReleaseStartFlowView, ReleaseView> {
        match step {
            StepView::Ask(inner, request) => self.ask(
                StartStageView::Starting { release, inner },
                request,
            ),
            StepView::Done(_) => {
                let frame = StartFrameView {
                    undo: self.undo.push(
                        (
                            undo_words(),
                            CompensationView::DeleteObject { kind: self.kind, name: None },
                        ),
                    ),
                    ..self
                };
                match release.version_files {
                    Some(files) => frame.rewriting(
                        pargit,
                        release,
                        RewriteFlowView::begun(files, VersionSpecView::Exact(release.version)),
                    ),
                    None => StepView::Done(release),
                }
            },
            StepView::Failed(e) => StepView::Failed(e),
            StepView::Stranded(e) => StepView::Failed(e),
        }
    }

    /// A step of the rewriting as a step of the start. The build follows the
    /// last file.
    pub open spec fn rewriting(
        self,
        pargit: PargitView,
        release: ReleaseView,
        step: StepView<RewriteFlowView, ()>,
    ) -> StepView<ReleaseStartFlowView, ReleaseView> {
        match step {
            StepView::Ask(inner, request) => self.ask(
                StartStageView::Rewriting { release, inner },
                request,
            ),
            StepView::Done(_) => match pargit.type_ {
                Some(ProjectType::Rust) => self.ask(
                    StartStageView::Building { release },
                    RequestView::Verify { command: Config::compilation_text(pargit.config) },
                ),
                None => StepView::Done(release),
            },
            StepView::Failed(e) => self.unwinding(e),
            StepView::Stranded(e) => self.unwinding(e),
        }
    }

    /// The first step of the undoing after `error`: what was remembered is
    /// carried out, newest first.
    pub open spec fn unwinding(self, error: FlowErrorView) -> StepView<
        ReleaseStartFlowView,
        ReleaseView,
    > {
        (StartFrameView { undo: Seq::empty(), ..self }).unwound(
            error,
            UnwindFlowView::starting(self.undo.reverse(), 0),
        )
    }

    /// A step of the undoing as a step of the start. The start ends in the
    /// failure that caused the undoing.
    pub open spec fn unwound(self, error: FlowErrorView, step: StepView<UnwindFlowView, ()>) -> StepView<
        ReleaseStartFlowView,
        ReleaseView,
    > {
        match step {
            StepView::Ask(inner, request) => self.ask(
                StartStageView::Unwinding { inner, error },
                request,
            ),
            _ => StepView::Failed(error),
        }
    }
}

impl ReleaseStartFlowView {
    /// The first step of the start of a release: the version files are
    /// gathered, with a choice among them where a bump is asked for.
    pub open spec fn begun(
        pargit: PargitView,
        spec: VersionSpecView,
        kind: ObjectKind,
        from_ref: Option<Seq<char>>,
    ) -> StepView<ReleaseStartFlowView, ReleaseView> {
        (StartFrameView { spec, kind, from_ref, undo: Seq::empty() }).gathered(
            pargit,
            GatherFlowView::begun(pargit, spec is Bump),
        )
    }

    /// The step after `reply`.
    ///
    /// A release whose tag exists already is not started. A failure of the
    /// rewriting or of the build deletes the branch again before it is
    /// reported.
    pub open spec fn resumed(self, pargit: PargitView, reply: ReplyView) -> StepView<
        ReleaseStartFlowView,
        ReleaseView,
    > {
        match self.stage {
            StartStageView::Gathering { inner } => self.frame.gathered(
                pargit,
                inner.resumed(pargit, reply),
            ),
            StartStageView::Listing { gathered } => match reply {
                ReplyView::Texts(tags) => self.frame.resolving(pargit, gathered, tags),
                _ => StepView::Failed(failure_of(reply)),
            },
            StartStageView::CheckingTag { release } => match reply {
                ReplyView::Flag(exists) => if exists {
                    StepView::Failed(FlowErrorView::TagExists { tag: release.tag })
                } else {
                    self.frame.starting(
                        pargit,
                        release,
                        StartFlowView::begun(self.frame.kind, release.name, self.frame.from_ref),
                    )
                },
                _ => StepView::Failed(failure_of(reply)),
            },
            StartStageView::Starting { release, inner } => self.frame.starting(
                pargit,
                release,
                inner.resumed(pargit, reply),
            ),
            StartStageView::Rewriting { release, inner } => self.frame.rewriting(
                pargit,
                release,
                inner.resumed(reply),
            ),
            StartStageView::Building { release } => match reply {
                ReplyView::Done => StepView::Done(release),
                ReplyView::Failed { message } => self.frame.unwinding(
                    FlowErrorView::BuildFailed { message },
                ),
                _ => self.frame.unwinding(FlowErrorView::UnexpectedReply),
            },
            StartStageView::Unwinding { inner, error } => self.frame.unwound(
                error,
                inner.resumed(pargit, reply),
            ),
        }
    }
}

impl StartFrame {
    fn ask(self, stage: StartStage, request: Request) -> (r: Step<ReleaseStartFlow, Release>)
        ensures
            r@ == self@.ask(stage@, request@),
    {
        Step::Ask(ReleaseStartFlow { frame: self, stage }, request)
    }

    fn gathered(self, pargit: &Pargit, step: Step<GatherFlow, Gathered>) -> (r: Step<
        ReleaseStartFlow,
        Release,
    >)
        ensures
            r@ == self@.gathered(pargit@, step@),
    {
        match step {
            Step::Ask(inner, request) => self.ask(StartStage::Gathering { inner }, request),
            Step::Done(gathered) => {
                let bump = match &self.spec {
                    VersionSpec::Bump(_) => true,
                    VersionSpec::Exact(_) => false,
                };
                if bump && gathered.files.len() == 0 {
                    self.ask(StartStage::Listing { gathered }, Request::ListTags)
                } else {
                    let tags: Vec<String> = Vec::new();
                    assert(tags.deep_view() =~= Seq::<Seq<char>>::empty());
                    self.resolving(pargit, gathered, &tags)
                }
            },
            Step::Failed(e) => Step::Failed(e),
            Step::Stranded(e) => Step::Failed(e),
        }
    }

    fn resolving(self, pargit: &Pargit, gathered: Gathered, tags: &Vec<String>) -> (r: Step<
        ReleaseStartFlow,
        Release,
    >)
        ensures
            r@ == self@.resolving(pargit@, gathered@, tags.deep_view()),
    {
        let Gathered { files, chosen } = gathered;
        match resolve_release(&pargit.config, self.spec.clone(), files, chosen, tags) {
            Ok(release) => {
                let name = release.tag.clone();
                self.ask(StartStage::CheckingTag { release }, Request::HasTag { name })
            },
            Err(reason) => Step::Failed(FlowError::Resolve { reason }),
        }
    }

    fn starting(self, pargit: &Pargit, release: Release, step: Step<StartFlow, ()>) -> (r: Step<
        ReleaseStartFlow,
        Release,
    >)
        ensures
            r@ == self@.starting(pargit@, release@, step@),
    {
        match step {
            Step::Ask(inner, request) => self.ask(StartStage::Starting { release, inner }, request),
            Step::Done(_) => {
                let StartFrame { spec, kind, from_ref, mut undo } = self;
                let ghost before = undo@;
                let action = Compensation::DeleteObject { kind, name: None };
                undo.remember(String::from_str("Deleting release branch"), action);
                proof {
                    lemma_deep_entries_push(before, undo_words(), action);
                }
                let frame = StartFrame { spec, kind, from_ref, undo };
                match &release.version_files {
                    Some(files) => {
                        let step = RewriteFlow::begin(
                            clone_files(files),
                            VersionSpec::Exact(release.version.clone()),
                        );
                        frame.rewriting(pargit, release, step)
                    },
                    None => Step::Done(release),
                }
            },
            Step::Failed(e) => Step::Failed(e),
            Step::Stranded(e) => Step::Failed(e),
        }
    }

    fn rewriting(self, pargit: &Pargit, release: Release, step: Step<RewriteFlow, ()>) -> (r: Step<
        ReleaseStartFlow,
        Release,
    >)
        ensures
            r@ == self@.rewriting(pargit@, release@, step@),
    {
        match step {
            Step::Ask(inner, request) => self.ask(StartStage::Rewriting { release, inner }, request),
            Step::Done(_) => match pargit.type_ {
                Some(ProjectType::Rust) => self.ask(
                    StartStage::Building { release },
                    Request::Verify { command: pargit.config.compilation_command() },
                ),
                None => Step::Done(release),
            },
            Step::Failed(e) => self.unwinding(e),
            Step::Stranded(e) => self.unwinding(e),
        }
    }

    fn unwinding(self, error: FlowError) -> (r: Step<ReleaseStartFlow, Release>)
        ensures
            r@ == self@.unwinding(error@),
    {
        let StartFrame { spec, kind, from_ref, mut undo } = self;
        let ghost before = undo@;
        let items = undo.unwind();
        proof {
            lemma_deep_items(items);
            lemma_deep_entries_reverse(before);
            assert(undo.deep_view() =~= Seq::empty());
        }
        let frame = StartFrame { spec, kind, from_ref, undo };
        frame.unwound(error, UnwindFlow::starting(items, 0))
    }

    fn unwound(self, error: FlowError, step: Step<UnwindFlow, ()>) -> (r: Step<
        ReleaseStartFlow,
        Release,
    >)
        ensures
            r@ == self@.unwound(error@, step@),
    {
        match step {
            Step::Ask(inner, request) => self.ask(StartStage::Unwinding { inner, error }, request),
            _ => Step::Failed(error),
        }
    }
}

impl ReleaseStartFlow {
    /// Begins the start of the release that `spec` asks for.
    pub fn begin(pargit: &Pargit, spec: VersionSpec, kind: ObjectKind, from_ref: Option<&str>) -> (r:
        Step<ReleaseStartFlow, Release>)
        ensures
            r@ == ReleaseStartFlowView::begun(
                pargit@,
                spec@,
                kind,
                match from_ref {
                    Some(s) => Some(s@),
                    None => None,
                },
            ),
    {
        let bump = match &spec {
            VersionSpec::Bump(_) => true,
            VersionSpec::Exact(_) => false,
        };
        let from_ref = match from_ref {
            Some(s) => Some(String::from_str(s)),
            None => None,
        };
        let undo: ExitStack<Compensation> = ExitStack::new();
        assert(undo.deep_view() =~= Seq::empty());
        let frame = StartFrame { spec, kind, from_ref, undo };
        frame.gathered(pargit, GatherFlow::begin(pargit, bump))
    }

    /// Goes on with the start after `reply`.
    pub fn resume(self, pargit: &Pargit, reply: Reply) -> (r: Step<ReleaseStartFlow, Release>)
        ensures
            r@ == self@.resumed(pargit@, reply@),
    {
        let ReleaseStartFlow { frame, stage } = self;
        match stage {
            StartStage::Gathering { inner } => {
                let step = inner.resume(pargit, reply);
                frame.gathered(pargit, step)
            },
            StartStage::Listing { gathered } => match reply {
                Reply::Texts(tags) => frame.resolving(pargit, gathered, &tags),
                _ => Step::Failed(reply_failure(reply)),
            },
            StartStage::CheckingTag { release } => match reply {
                Reply::Flag(exists) => {
                    if exists {
                        Step::Failed(FlowError::TagExists { tag: release.tag })
                    } else {
                        let step = match &frame.from_ref {
                            Some(r) => StartFlow::begin(
                                frame.kind,
                                release.name.as_str(),
                                Some(r.as_str()),
                            ),
                            None => StartFlow::begin(frame.kind, release.name.as_str(), None),
                        };
                        frame.starting(pargit, release, step)
                    }
                },
                _ => Step::Failed(reply_failure(reply)),
            },
            StartStage::Starting { release, inner } => {
                let step = inner.resume(pargit, reply);
                frame.starting(pargit, release, step)
            },
            StartStage::Rewriting { release, inner } => {
                let step = inner.resume(reply);
                frame.rewriting(pargit, release, step)
            },
            StartStage::Building { release } => match reply {
                Reply::Done => {
                    let mut frame = frame;
                    frame.undo.forget();
                    Step::Done(release)
                },
                Reply::Failed { message } => frame.unwinding(FlowError::BuildFailed { message }),
                _ => frame.unwinding(FlowError::UnexpectedReply),
            },
            StartStage::Unwinding { inner, error } => {
                let step = inner.resume(pargit, reply);
                frame.unwound(error, step)
            },
        }
    }
}

} // verus!
