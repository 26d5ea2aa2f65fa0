//! Undoing what an operation did before it was given up: the remembered
//! compensations are carried out, newest first, and none of them can stop
//! the others.

use crate::config::clone_optional;
use crate::exit_stack::ExitStackItem;
use crate::flow::delete::{DeleteFlow, DeleteFlowView};
use crate::flow::{Reply, ReplyView, Step, StepView};
use crate::object_kind::ObjectKind;
use crate::pargit::{Pargit, PargitView};
use vstd::prelude::*;

verus! {

/// What undoes a step of an operation.
#[derive(Debug, PartialEq, Eq)]
pub enum Compensation {
    /// The object `name` of `kind` is deleted, or the object whose branch is
    /// checked out where no name is given.
    DeleteObject { kind: ObjectKind, name: Option<String> },
}

/// What a [`Compensation`] stands for.
pub enum CompensationView {
    DeleteObject { kind: ObjectKind, name: Option<Seq<char>> },
}

impl View for Compensation {
    type V = CompensationView;

    open spec fn view(&self) -> CompensationView {
        match self {
            Compensation::DeleteObject { kind, name } => CompensationView::DeleteObject {
                kind: *kind,
                name: name.deep_view(),
            },
        }
    }
}

impl DeepView for Compensation {
    type V = CompensationView;

    open spec fn deep_view(&self) -> CompensationView {
        self@
    }
}

impl CompensationView {
    /// The first step of the compensation.
    pub open spec fn begun(self) -> StepView<DeleteFlowView, ()> {
        match self {
            CompensationView::DeleteObject { kind, name } => DeleteFlowView::begun(kind, name),
        }
    }
}

impl Compensation {
    /// Begins the compensation.
    pub fn begin(&self) -> (r: Step<DeleteFlow, ()>)
        ensures
            r@ == self@.begun(),
    {
        match self {
            Compensation::DeleteObject { kind, name } => DeleteFlow::begin(
                *kind,
                clone_optional(name),
            ),
        }
    }
}

/// An undoing that is under way.
#[derive(Debug, PartialEq, Eq)]
pub struct UnwindFlow {
    /// The compensations, newest first.
    pub items: Vec<ExitStackItem<Compensation>>,
    /// The position of the compensation that is under way.
    pub position: usize,
    pub inner: DeleteFlow,
}

/// What an [`UnwindFlow`] stands for.
pub struct UnwindFlowView {
    pub items: Seq<(Seq<char>, CompensationView)>,
    pub position: int,
    pub inner: DeleteFlowView,
}

impl View for UnwindFlow {
    type V = UnwindFlowView;

    open spec fn view(&self) -> UnwindFlowView {
        UnwindFlowView {
            items: self.items.deep_view(),
            position: self.position as int,
            inner: self.inner@,
        }
    }
}

impl DeepView for UnwindFlow {
    type V = UnwindFlowView;

    open spec fn deep_view(&self) -> UnwindFlowView {
        self@
    }
}

/// The compensation of a remembered step.
pub open spec fn compensation_of(item: (Seq<char>, CompensationView)) -> CompensationView {
    let (_, compensation) = item;
    compensation
}

impl UnwindFlowView {
    /// The step that begins the compensation at `position`, or the next one
    /// where that one has nothing to do; the end where none is left.
    pub open spec fn starting(items: Seq<(Seq<char>, CompensationView)>, position: int) -> StepView<
        UnwindFlowView,
        (),
    >
        decreases items.len() - position,
    {
        if 0 <= position < items.len() {
            match compensation_of(items[position]).begun() {
                StepView::Ask(inner, request) => StepView::Ask(
                    UnwindFlowView { items, position, inner },
                    request,
                ),
                _ => UnwindFlowView::starting(items, position + 1),
            }
        } else {
            StepView::Done(())
        }
    }

    /// The step after `reply`. A compensation that fails is passed over: the
    /// next one begins as if it had gone through.
    pub open spec fn resumed(self, pargit: PargitView, reply: ReplyView) -> StepView<
        UnwindFlowView,
        (),
    > {
        match self.inner.resumed(pargit, reply) {
            StepView::Ask(inner, request) => StepView::Ask(
                UnwindFlowView { inner, ..self },
                request,
            ),
            _ => UnwindFlowView::starting(self.items, self.position + 1),
        }
    }
}

impl UnwindFlow {
    /// Begins the compensation at `position`, or the next one where that one
    /// has nothing to do.
    pub fn starting(items: Vec<ExitStackItem<Compensation>>, position: usize) -> (r: Step<
        UnwindFlow,
        (),
    >)
        ensures
            r@ == UnwindFlowView::starting(items.deep_view(), position as int),
        decreases items.len() - position,
    {
        if position < items.len() {
            assert(items.deep_view()[position as int] == items@[position as int].deep_view());
            match items[position].action.begin() {
                Step::Ask(inner, request) => Step::Ask(
                    UnwindFlow { items, position, inner },
                    request,
                ),
                _ => UnwindFlow::starting(items, position + 1),
            }
        } else {
            Step::Done(())
        }
    }

    /// Goes on with the undoing after `reply`.
    pub fn resume(self, pargit: &Pargit, reply: Reply) -> (r: Step<UnwindFlow, ()>)
        ensures
            r@ == self@.resumed(pargit@, reply@),
    {
        let UnwindFlow { items, position, inner } = self;
        match inner.resume(pargit, reply) {
            Step::Ask(inner, request) => Step::Ask(UnwindFlow { items, position, inner }, request),
            _ => {
                if position < items.len() {
                    UnwindFlow::starting(items, position + 1)
                } else {
                    Step::Done(())
                }
            },
        }
    }
}

} // verus!
