//! Opening a repository: its working tree has to be clean and its two
//! trunks have to exist.

use crate::config::ConfigView;
use crate::flow::{
    failure_of, reply_failure, FlowError, FlowErrorView, Reply, ReplyView, Request, RequestView,
    Step, StepView,
};
use crate::pargit::{Pargit, PargitView};
use crate::text::joined;
use vstd::prelude::*;

verus! {

/// What the opening of a repository waits for.
#[derive(Clone, Copy, Debug, PartialEq, Eq, Structural)]
pub enum OpenPoint {
    /// Whether the working tree holds changes.
    Dirty,
    /// Whether the develop branch exists.
    FindingDevelop,
    /// Whether the main branch exists.
    FindingMain,
    /// Whether the user wants the main branch to be created.
    Confirming,
    /// The creation of the main branch after the remote's.
    Tracking,
}

/// The opening of a repository that is under way.
#[derive(Clone, Copy, Debug, PartialEq, Eq, Structural)]
pub struct OpenFlow {
    /// Whether the user can be asked questions.
    pub interactive: bool,
    pub point: OpenPoint,
}

impl View for OpenFlow {
    type V = OpenFlow;

    open spec fn view(&self) -> OpenFlow {
        *self
    }
}

impl DeepView for OpenFlow {
    type V = OpenFlow;

    open spec fn deep_view(&self) -> OpenFlow {
        *self
    }
}

/// The question that is put where the main branch does not exist.
pub open spec fn create_main_prompt(config: ConfigView) -> Seq<char> {
    config.main_branch_name + " branch not found. Create it?"@
}

impl OpenFlow {
    /// The flow at `point`, asking `request`.
    pub open spec fn asking(self, point: OpenPoint, request: RequestView) -> StepView<OpenFlow, ()> {
        StepView::Ask(OpenFlow { point, ..self }, request)
    }

    /// The first step of the opening: it asks whether the working tree holds
    /// changes.
    pub open spec fn begun(interactive: bool) -> StepView<OpenFlow, ()> {
        StepView::Ask(OpenFlow { interactive, point: OpenPoint::Dirty }, RequestView::IsDirty)
    }

    /// The step after `reply`.
    ///
    /// A working tree with changes and a missing develop branch end the
    /// opening. A missing main branch is created after the remote's where the
    /// user can be asked and agrees.
    pub open spec fn resumed(self, pargit: PargitView, reply: ReplyView) -> StepView<OpenFlow, ()> {
        match self.point {
            OpenPoint::Dirty => match reply {
                ReplyView::Flag(dirty) => if dirty {
                    StepView::Failed(FlowErrorView::Dirty)
                } else {
                    self.asking(
                        OpenPoint::FindingDevelop,
                        RequestView::FindBranch { name: pargit.config.develop_branch_name },
                    )
                },
                _ => StepView::Failed(failure_of(reply)),
            },
            OpenPoint::FindingDevelop => match reply {
                ReplyView::Done => self.asking(
                    OpenPoint::FindingMain,
                    RequestView::FindBranch { name: pargit.config.main_branch_name },
                ),
                ReplyView::Missing => StepView::Failed(
                    FlowErrorView::MissingBranch { branch: pargit.config.develop_branch_name },
                ),
                _ => StepView::Failed(failure_of(reply)),
            },
            OpenPoint::FindingMain => match reply {
                ReplyView::Done => StepView::Done(()),
                ReplyView::Missing => if self.interactive {
                    self.asking(
                        OpenPoint::Confirming,
                        RequestView::Confirm { prompt: create_main_prompt(pargit.config) },
                    )
                } else {
                    StepView::Failed(
                        FlowErrorView::MissingBranch { branch: pargit.config.main_branch_name },
                    )
                },
                _ => StepView::Failed(failure_of(reply)),
            },
            OpenPoint::Confirming => match reply {
                ReplyView::Flag(yes) => if yes {
                    self.asking(
                        OpenPoint::Tracking,
                        RequestView::TrackRemote { branch: pargit.config.main_branch_name },
                    )
                } else {
                    StepView::Failed(
                        FlowErrorView::MissingBranch { branch: pargit.config.main_branch_name },
                    )
                },
                _ => StepView::Failed(failure_of(reply)),
            },
            OpenPoint::Tracking => match reply {
                ReplyView::Done => StepView::Done(()),
                _ => StepView::Failed(failure_of(reply)),
            },
        }
    }

    /// Begins the opening of a repository. `interactive` says whether the
    /// user can be asked questions.
    pub fn begin(interactive: bool) -> (r: Step<OpenFlow, ()>)
        ensures
            r@ == OpenFlow::begun(interactive),
    {
        Step::Ask(OpenFlow { interactive, point: OpenPoint::Dirty }, Request::IsDirty)
    }

    fn ask(self, point: OpenPoint, request: Request) -> (r: Step<OpenFlow, ()>)
        ensures
            r@ == self.asking(point, request@),
    {
        Step::Ask(OpenFlow { point, ..self }, request)
    }

    /// Goes on with the opening after `reply`.
    pub fn resume(self, pargit: &Pargit, reply: Reply) -> (r: Step<OpenFlow, ()>)
        ensures
            r@ == self.resumed(pargit@, reply@),
    {
        let config = &pargit.config;
        match self.point {
            OpenPoint::Dirty => match reply {
                Reply::Flag(dirty) => {
                    if dirty {
                        Step::Failed(FlowError::Dirty)
                    } else {
                        self.ask(
                            OpenPoint::FindingDevelop,
                            Request::FindBranch { name: config.develop_branch_name.clone() },
                        )
                    }
                },
                _ => Step::Failed(reply_failure(reply)),
            },
            OpenPoint::FindingDevelop => match reply {
                Reply::Done => self.ask(
                    OpenPoint::FindingMain,
                    Request::FindBranch { name: config.main_branch_name.clone() },
                ),
                Reply::Missing => Step::Failed(
                    FlowError::MissingBranch { branch: config.develop_branch_name.clone() },
                ),
                _ => Step::Failed(reply_failure(reply)),
            },
            OpenPoint::FindingMain => match reply {
                Reply::Done => Step::Done(()),
                Reply::Missing => {
                    if self.interactive {
                        let prompt = joined(
                            config.main_branch_name.as_str(),
                            " branch not found. Create it?",
                        );
                        self.ask(OpenPoint::Confirming, Request::Confirm { prompt })
                    } else {
                        Step::Failed(
                            FlowError::MissingBranch { branch: config.main_branch_name.clone() },
                        )
                    }
                },
                _ => Step::Failed(reply_failure(reply)),
            },
            OpenPoint::Confirming => match reply {
                Reply::Flag(yes) => {
                    if yes {
                        self.ask(
                            OpenPoint::Tracking,
                            Request::TrackRemote { branch: config.main_branch_name.clone() },
                        )
                    } else {
                        Step::Failed(
                            FlowError::MissingBranch { branch: config.main_branch_name.clone() },
                        )
                    }
                },
                _ => Step::Failed(reply_failure(reply)),
            },
            OpenPoint::Tracking => match reply {
                Reply::Done => Step::Done(()),
                _ => Step::Failed(reply_failure(reply)),
            },
        }
    }
}

} // verus!
