//! Rewriting version files: each is read, given its new version and written
//! back, one after the other.

use crate::commands::{VersionSpec, VersionSpecView};
use crate::flow::{
    failure_of, reply_failure, FlowError, FlowErrorView, Reply, ReplyView, Request, RequestView,
    Step, StepView,
};
use crate::version_file::{VersionFile, VersionFileView};
use vstd::prelude::*;

verus! {

/// A rewriting that is under way.
#[derive(Debug, PartialEq, Eq)]
pub struct RewriteFlow {
    pub files: Vec<VersionFile>,
    pub spec: VersionSpec,
    /// How many files are done.
    pub done: usize,
    /// Whether the file at hand was read and is being written.
    pub writing: bool,
}

/// What a [`RewriteFlow`] stands for.
pub struct RewriteFlowView {
    pub files: Seq<VersionFileView>,
    pub spec: VersionSpecView,
    pub done: int,
    pub writing: bool,
}

impl View for RewriteFlow {
    type V = RewriteFlowView;

    open spec fn view(&self) -> RewriteFlowView {
        RewriteFlowView {
            files: self.files.deep_view(),
            spec: self.spec@,
            done: self.done as int,
            writing: self.writing,
        }
    }
}

impl DeepView for RewriteFlow {
    type V = RewriteFlowView;

    open spec fn deep_view(&self) -> RewriteFlowView {
        self@
    }
}

impl RewriteFlowView {
    /// The step that reads the file at hand, or the end where every file is
    /// done.
    pub open spec fn reading(self) -> StepView<RewriteFlowView, ()> {
        if 0 <= self.done < self.files.len() {
            StepView::Ask(
                RewriteFlowView { writing: false, ..self },
                RequestView::ReadFile { path: self.files[self.done].path() },
            )
        } else {
            StepView::Done(())
        }
    }

    /// The first step of a rewriting of `files` to the version that `spec`
    /// asks for.
    pub open spec fn begun(files: Seq<VersionFileView>, spec: VersionSpecView) -> StepView<
        RewriteFlowView,
        (),
    > {
        (RewriteFlowView { files, spec, done: 0, writing: false }).reading()
    }

    /// The step after `reply`.
    ///
    /// What was read is written back with nothing but the version changed; a
    /// bump is relative to the version of the file at hand. The first file
    /// that cannot be read, rewritten or written ends the rewriting.
    pub open spec fn resumed(self, reply: ReplyView) -> StepView<RewriteFlowView, ()> {
        if !(0 <= self.done < self.files.len()) {
            StepView::Failed(FlowErrorView::UnexpectedReply)
        } else if self.writing {
            match reply {
                ReplyView::Done => (RewriteFlowView { done: self.done + 1, ..self }).reading(),
                _ => StepView::Failed(failure_of(reply)),
            }
        } else {
            match reply {
                ReplyView::Text(content) => match self.files[self.done].bumped(content, self.spec) {
                    Ok(content) => StepView::Ask(
                        RewriteFlowView { writing: true, ..self },
                        RequestView::WriteFile { path: self.files[self.done].path(), content },
                    ),
                    Err(error) => StepView::Failed(FlowErrorView::Manifest { error }),
                },
                _ => StepView::Failed(failure_of(reply)),
            }
        }
    }
}

impl RewriteFlow {
    fn reading(self) -> (r: Step<RewriteFlow, ()>)
        ensures
            r@ == self@.reading(),
    {
        if self.done < self.files.len() {
            let path = String::from_str(self.files[self.done].path());
            Step::Ask(RewriteFlow { writing: false, ..self }, Request::ReadFile { path })
        } else {
            Step::Done(())
        }
    }

    /// Begins the rewriting of `files` to the version that `spec` asks for.
    pub fn begin(files: Vec<VersionFile>, spec: VersionSpec) -> (r: Step<RewriteFlow, ()>)
        ensures
            r@ == RewriteFlowView::begun(files.deep_view(), spec@),
    {
        (RewriteFlow { files, spec, done: 0, writing: false }).reading()
    }

    /// Goes on with the rewriting after `reply`.
    pub fn resume(self, reply: Reply) -> (r: Step<RewriteFlow, ()>)
        ensures
            r@ == self@.resumed(reply@),
    {
        if self.done >= self.files.len() {
            Step::Failed(FlowError::UnexpectedReply)
        } else if self.writing {
            match reply {
                Reply::Done => (RewriteFlow { done: self.done + 1, ..self }).reading(),
                _ => Step::Failed(reply_failure(reply)),
            }
        } else {
            match reply {
                Reply::Text(content) => match self.files[self.done].bump(
                    content.as_str(),
                    self.spec.clone(),
                ) {
                    Ok(content) => {
                        let path = String::from_str(self.files[self.done].path());
                        Step::Ask(
                            RewriteFlow { writing: true, ..self },
                            Request::WriteFile { path, content },
                        )
                    },
                    Err(error) => Step::Failed(FlowError::Manifest { error }),
                },
                _ => Step::Failed(reply_failure(reply)),
            }
        }
    }
}

} // verus!
