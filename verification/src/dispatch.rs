//! From a command to the operation that carries it out.

use crate::commands::{
    Command, CommandView, FlowCommand, FlowCommandView, ReleaseCommand, ReleaseCommandView,
    VersionCommand,
};
use crate::flow::bump::{BumpFlow, BumpFlowView};
use crate::flow::delete::{DeleteFlow, DeleteFlowView};
use crate::flow::finish::{FinishFlow, FinishFlowView};
use crate::flow::publish::PublishFlow;
use crate::flow::release_finish::{ReleaseFinishFlow, ReleaseFinishFlowView};
use crate::flow::release_start::{ReleaseStartFlow, ReleaseStartFlowView};
use crate::flow::release_version::{ReleaseVersionFlow, ReleaseVersionFlowView};
use crate::flow::start::{StartFlow, StartFlowView};
use crate::flow::{Step, StepView};
use crate::object_kind::ObjectKind;
use crate::pargit::{Pargit, PargitView};
use crate::release::{Release, ReleaseView};
use vstd::prelude::*;

verus! {

/// An operation that has begun, or one that needs no repository.
#[derive(Debug, PartialEq, Eq)]
pub enum Operation {
    /// The sample configuration is to be written.
    Configure,
    /// The repository is to be cleaned up.
    Cleanup,
    Start(Step<StartFlow, ()>),
    Publish(Step<PublishFlow, Vec<String>>),
    Delete(Step<DeleteFlow, ()>),
    Finish(Step<FinishFlow, ()>),
    ReleaseStart(Step<ReleaseStartFlow, Release>),
    ReleaseFinish(Step<ReleaseFinishFlow, ()>),
    ReleaseVersion(Step<ReleaseVersionFlow, ()>),
    Bump(Step<BumpFlow, ()>),
}

/// What an [`Operation`] stands for.
pub enum OperationView {
    Configure,
    Cleanup,
    Start(StepView<StartFlowView, ()>),
    Publish(StepView<PublishFlow, Seq<Seq<char>>>),
    Delete(StepView<DeleteFlowView, ()>),
    Finish(StepView<FinishFlowView, ()>),
    ReleaseStart(StepView<ReleaseStartFlowView, ReleaseView>),
    ReleaseFinish(StepView<ReleaseFinishFlowView, ()>),
    ReleaseVersion(StepView<ReleaseVersionFlowView, ()>),
    Bump(StepView<BumpFlowView, ()>),
}

impl View for Operation {
    type V = OperationView;

    open spec fn view(&self) -> OperationView {
        match self {
            Operation::Configure => OperationView::Configure,
            Operation::Cleanup => OperationView::Cleanup,
            Operation::Start(s) => OperationView::Start(s@),
            Operation::Publish(s) => OperationView::Publish(s@),
            Operation::Delete(s) => OperationView::Delete(s@),
            Operation::Finish(s) => OperationView::Finish(s@),
            Operation::ReleaseStart(s) => OperationView::ReleaseStart(s@),
            Operation::ReleaseFinish(s) => OperationView::ReleaseFinish(s@),
            Operation::ReleaseVersion(s) => OperationView::ReleaseVersion(s@),
            Operation::Bump(s) => OperationView::Bump(s@),
        }
    }
}

/// The operation that carries out a command on the objects of a kind that is
/// no release. Such an object is finished into the develop branch.
pub open spec fn flow_operation(pargit: PargitView, kind: ObjectKind, command: FlowCommandView) -> OperationView {
    match command {
        FlowCommandView::Start { name, from_ref } => OperationView::Start(
            StartFlowView::begun(kind, name, from_ref),
        ),
        FlowCommandView::Publish { name } => OperationView::Publish(PublishFlow::begun(kind, name)),
        FlowCommandView::Delete { name } => OperationView::Delete(DeleteFlowView::begun(kind, name)),
        FlowCommandView::Finish { name } => OperationView::Finish(
            FinishFlowView::begun(kind, name, pargit.config.develop_branch_name),
        ),
    }
}

/// The operation that carries out a command on releases or hotfixes. A
/// release that is finished by its name gets the tag that the settings give
/// to that name.
pub open spec fn release_operation(
    pargit: PargitView,
    command: ReleaseCommandView,
    release_kind: ObjectKind,
) -> OperationView {
    match command {
        ReleaseCommandView::Start { spec, from_ref } => OperationView::ReleaseStart(
            ReleaseStartFlowView::begun(pargit, spec, release_kind, from_ref),
        ),
        ReleaseCommandView::Publish { name } => OperationView::Publish(
            PublishFlow::begun(release_kind, name),
        ),
        ReleaseCommandView::Delete { name } => OperationView::Delete(
            DeleteFlowView::begun(release_kind, name),
        ),
        ReleaseCommandView::Finish { options, name } => OperationView::ReleaseFinish(
            ReleaseFinishFlowView::begun(release_kind, name, None, options),
        ),
        ReleaseCommandView::Version { options, kind } => OperationView::ReleaseVersion(
            ReleaseVersionFlowView::begun(pargit, kind, release_kind, options),
        ),
    }
}

/// The operation that carries out a command.
pub open spec fn operation_of(pargit: PargitView, command: CommandView) -> OperationView {
    match command {
        CommandView::Configure => OperationView::Configure,
        CommandView::Release(c) => release_operation(pargit, c, ObjectKind::Release),
        CommandView::Hotfix(c) => release_operation(pargit, c, ObjectKind::Hotfix),
        CommandView::Feature(c) => flow_operation(pargit, ObjectKind::Feature, c),
        CommandView::Bugfix(c) => flow_operation(pargit, ObjectKind::Bugfix, c),
        CommandView::Version(VersionCommand::Bump { kind }) => OperationView::Bump(
            BumpFlowView::begun(pargit, kind),
        ),
        CommandView::Cleanup => OperationView::Cleanup,
    }
}

/// Begins the operation that carries out a command on the objects of a kind
/// that is no release.
pub fn process_flow_command(pargit: &Pargit, kind: ObjectKind, cmd: FlowCommand) -> (r: Operation)
    ensures
        r@ == flow_operation(pargit@, kind, cmd@),
{
    match cmd {
        FlowCommand::Start { name, from_ref } => match &from_ref {
            Some(r) => Operation::Start(pargit.pargit_start(kind, name.as_str(), Some(r.as_str()))),
            None => Operation::Start(pargit.pargit_start(kind, name.as_str(), None)),
        },
        FlowCommand::Publish { name } => Operation::Publish(pargit.pargit_publish(kind, name)),
        FlowCommand::Delete { name } => Operation::Delete(pargit.pargit_delete(kind, name)),
        FlowCommand::Finish { name } => Operation::Finish(
            pargit.pargit_finish(kind, name, pargit.config().develop_branch_name.as_str()),
        ),
    }
}

/// Begins the operation that carries out a command on releases or hotfixes.
pub fn process_release_command(pargit: &Pargit, cmd: ReleaseCommand, release_kind: ObjectKind) -> (r:
    Operation)
    ensures
        r@ == release_operation(pargit@, cmd@, release_kind),
{
    match cmd {
        ReleaseCommand::Start { spec, from_ref } => match &from_ref {
            Some(r) => Operation::ReleaseStart(
                pargit.release_start(spec, release_kind, Some(r.as_str())),
            ),
            None => Operation::ReleaseStart(pargit.release_start(spec, release_kind, None)),
        },
        ReleaseCommand::Publish { name } => Operation::Publish(
            pargit.pargit_publish(release_kind, name),
        ),
        ReleaseCommand::Delete { name } => Operation::Delete(
            pargit.pargit_delete(release_kind, name),
        ),
        ReleaseCommand::Finish { options, name } => Operation::ReleaseFinish(
            pargit.release_finish(name, None, release_kind, options),
        ),
        ReleaseCommand::Version { options, kind } => Operation::ReleaseVersion(
            pargit.release_version(kind, release_kind, options),
        ),
    }
}

/// Begins the operation that carries out a command.
pub fn entry_point(pargit: &Pargit, command: Command) -> (r: Operation)
    ensures
        r@ == operation_of(pargit@, command@),
{
    match command {
        Command::Configure => Operation::Configure,
        Command::Release(cmd) => process_release_command(pargit, cmd, ObjectKind::Release),
        Command::Hotfix(cmd) => process_release_command(pargit, cmd, ObjectKind::Hotfix),
        Command::Feature(cmd) => process_flow_command(pargit, ObjectKind::Feature, cmd),
        Command::Bugfix(cmd) => process_flow_command(pargit, ObjectKind::Bugfix, cmd),
        Command::Version(VersionCommand::Bump { kind }) => Operation::Bump(
            pargit.bump_version(kind),
        ),
        Command::Cleanup => Operation::Cleanup,
    }
}

} // verus!
