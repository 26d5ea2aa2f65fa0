//! Publishing an object: its branch is pushed and followed by the remote's.

use crate::flow::{
    failure_of, name_from_reply, named_by, reply_failure, Reply, ReplyView, Request, RequestView, Step, StepView,
};
use crate::object_kind::ObjectKind;
use crate::text::{beginning_with, keep_beginning_with, lines, lines_of};
use vstd::prelude::*;

verus! {

/// What a publication waits for.
#[derive(Clone, Copy, Debug, PartialEq, Eq, Structural)]
pub enum PublishPoint {
    /// The branch that is checked out, which names the object.
    Naming,
    /// The push of the branch.
    Pushing,
}

/// A publication that is under way.
#[derive(Debug, PartialEq, Eq)]
pub struct PublishFlow {
    pub kind: ObjectKind,
    pub point: PublishPoint,
}

impl View for PublishFlow {
    type V = PublishFlow;

    open spec fn view(&self) -> PublishFlow {
        *self
    }
}

impl DeepView for PublishFlow {
    type V = PublishFlow;

    open spec fn deep_view(&self) -> PublishFlow {
        *self
    }
}

/// The lines of the remote's output that the remote itself wrote: those that
/// begin with `remote:`.
pub open spec fn remote_lines(output: Seq<char>) -> Seq<Seq<char>> {
    beginning_with(lines_of(output), "remote:"@)
}

impl PublishFlow {
    /// The step that pushes the branch of the object `name` to the branch of
    /// the same name, which becomes its upstream.
    pub open spec fn pushing(kind: ObjectKind, name: Seq<char>) -> StepView<
        PublishFlow,
        Seq<Seq<char>>,
    > {
        StepView::Ask(
            PublishFlow { kind, point: PublishPoint::Pushing },
            RequestView::Push {
                source: kind.branch_text(name),
                target: kind.branch_text(name),
                track: true,
            },
        )
    }

    /// The first step of a publication: with a name it pushes, without one it
    /// asks which branch is checked out.
    pub open spec fn begun(kind: ObjectKind, name: Option<Seq<char>>) -> StepView<
        PublishFlow,
        Seq<Seq<char>>,
    > {
        match name {
            Some(name) => PublishFlow::pushing(kind, name),
            None => StepView::Ask(
                PublishFlow { kind, point: PublishPoint::Naming },
                RequestView::CurrentBranch,
            ),
        }
    }

    /// The step after `reply`. A publication ends with the lines that the
    /// remote wrote while it took the push.
    pub open spec fn resumed(self, reply: ReplyView) -> StepView<PublishFlow, Seq<Seq<char>>> {
        match self.point {
            PublishPoint::Naming => match named_by(self.kind, reply) {
                Ok(name) => PublishFlow::pushing(self.kind, name),
                Err(e) => StepView::Failed(e),
            },
            PublishPoint::Pushing => match reply {
                ReplyView::Text(output) => StepView::Done(remote_lines(output)),
                ReplyView::Done => StepView::Done(Seq::empty()),
                _ => StepView::Failed(failure_of(reply)),
            },
        }
    }

    fn push(kind: ObjectKind, name: &str) -> (r: Step<PublishFlow, Vec<String>>)
        ensures
            r@ == PublishFlow::pushing(kind, name@),
    {
        Step::Ask(
            PublishFlow { kind, point: PublishPoint::Pushing },
            Request::Push {
                source: kind.branch_name(name),
                target: kind.branch_name(name),
                track: true,
            },
        )
    }

    /// Begins the publication of the object `name` of `kind`, or of the
    /// object whose branch is checked out where no name is given.
    pub fn begin(kind: ObjectKind, name: Option<String>) -> (r: Step<PublishFlow, Vec<String>>)
        ensures
            r@ == PublishFlow::begun(kind, name.deep_view()),
    {
        match name {
            Some(name) => PublishFlow::push(kind, name.as_str()),
            None => Step::Ask(
                PublishFlow { kind, point: PublishPoint::Naming },
                Request::CurrentBranch,
            ),
        }
    }

    /// Goes on with the publication after `reply`.
    pub fn resume(self, reply: Reply) -> (r: Step<PublishFlow, Vec<String>>)
        ensures
            r@ == self.resumed(reply@),
    {
        match self.point {
            PublishPoint::Naming => match name_from_reply(self.kind, reply) {
                Ok(name) => PublishFlow::push(self.kind, name.as_str()),
                Err(e) => Step::Failed(e),
            },
            PublishPoint::Pushing => match reply {
                Reply::Text(output) => Step::Done(
                    keep_beginning_with(lines(output.as_str()), "remote:"),
                ),
                Reply::Done => {
                    let none: Vec<String> = Vec::new();
                    assert(none.deep_view() =~= Seq::<Seq<char>>::empty());
                    Step::Done(none)
                },
                _ => Step::Failed(reply_failure(reply)),
            },
        }
    }
}

} // verus!
