//! The repository that the operations work on, as far as they decide by it.

use crate::cleanup::{cleanup_plan, plan_cleanup, BranchState};
use crate::commands::{BumpKind, ReleaseOptions, VersionSpec};
use crate::config::{Config, ConfigView};
use crate::flow::bump::{BumpFlow, BumpFlowView};
use crate::flow::delete::{DeleteFlow, DeleteFlowView};
use crate::flow::finish::{FinishFlow, FinishFlowView};
use crate::flow::open::OpenFlow;
use crate::flow::publish::PublishFlow;
use crate::flow::release_finish::{ReleaseFinishFlow, ReleaseFinishFlowView};
use crate::flow::release_start::{ReleaseStartFlow, ReleaseStartFlowView};
use crate::flow::release_version::{ReleaseVersionFlow, ReleaseVersionFlowView};
use crate::flow::start::{StartFlow, StartFlowView};
use crate::flow::{Request, Step};
use crate::object_kind::ObjectKind;
use crate::release::Release;
use vstd::prelude::*;

verus! {

/// The kind of project that a repository holds.
#[derive(Clone, Copy, Debug, PartialEq, Eq, Structural)]
pub enum ProjectType {
    Rust,
}

/// A repository with its settings and what is known of its project.
#[derive(Debug, PartialEq, Eq)]
pub struct Pargit {
    pub repo_path: String,
    pub project_path: String,
    pub type_: Option<ProjectType>,
    pub config: Config,
}

/// What a [`Pargit`] stands for.
pub struct PargitView {
    pub repo_path: Seq<char>,
    pub project_path: Seq<char>,
    pub type_: Option<ProjectType>,
    pub config: ConfigView,
}

impl View for Pargit {
    type V = PargitView;

    open spec fn view(&self) -> PargitView {
        PargitView {
            repo_path: self.repo_path@,
            project_path: self.project_path@,
            type_: self.type_,
            config: self.config@,
        }
    }
}

impl Pargit {
    /// The repository at `repo_path` whose project lies at `project_path`;
    /// `has_manifest` says whether a Cargo manifest stands at the root of the
    /// project, which makes it a Rust project.
    pub fn new(repo_path: String, project_path: String, has_manifest: bool, config: Config) -> (r:
        Pargit)
        ensures
            r@ == (PargitView {
                repo_path: repo_path@,
                project_path: project_path@,
                type_: if has_manifest {
                    Some(ProjectType::Rust)
                } else {
                    None
                },
                config: config@,
            }),
    {
        let type_ = if has_manifest {
            Some(ProjectType::Rust)
        } else {
            None
        };
        Pargit { repo_path, project_path, type_, config }
    }

    /// The settings of the repository.
    pub fn config(&self) -> (r: &Config)
        ensures
            r@ == self@.config,
    {
        &self.config
    }

    /// Begins the check of the repository: its working tree has to be clean
    /// and its two trunks have to exist. `interactive` says whether the user
    /// can be asked to have a missing main branch created.
    pub fn check_configuration(&self, interactive: bool) -> (r: Step<OpenFlow, ()>)
        ensures
            r@ == OpenFlow::begun(interactive),
    {
        OpenFlow::begin(interactive)
    }

    /// Begins a bump of the version of the project.
    pub fn bump_version(&self, bump_kind: BumpKind) -> (r: Step<BumpFlow, ()>)
        ensures
            r@ == BumpFlowView::begun(self@, bump_kind),
    {
        BumpFlow::begin(self, bump_kind)
    }

    /// What is to be done to clean up: the flow branches that the remote
    /// develop branch holds and the local one does not are deleted, where the
    /// remote develop branch is ahead of the local one. `current` is the
    /// branch that is checked out, `develop_differs` says that the local and
    /// the remote develop branch stand at different commits, and
    /// `develop_merged` that the remote one holds the local one.
    pub fn pargit_cleanup(
        &self,
        current: &str,
        develop_differs: bool,
        develop_merged: bool,
        branches: &Vec<BranchState>,
    ) -> (r: Vec<Request>)
        ensures
            r.deep_view() == cleanup_plan(
                self@.config.develop_branch_name,
                current@,
                develop_differs,
                develop_merged,
                branches.deep_view(),
            ),
    {
        plan_cleanup(
            self.config.develop_branch_name.as_str(),
            current,
            develop_differs,
            develop_merged,
            branches,
        )
    }

    /// Begins the deletion of an object.
    pub fn pargit_delete(&self, kind: ObjectKind, name: Option<String>) -> (r: Step<DeleteFlow, ()>)
        ensures
            r@ == DeleteFlowView::begun(kind, name.deep_view()),
    {
        DeleteFlow::begin(kind, name)
    }

    /// Begins the finish of an object that is no release.
    pub fn pargit_finish(&self, kind: ObjectKind, name: Option<String>, dest_branch: &str) -> (r:
        Step<FinishFlow, ()>)
        ensures
            r@ == FinishFlowView::begun(kind, name.deep_view(), dest_branch@),
    {
        FinishFlow::begin(kind, name, dest_branch)
    }

    /// Begins the publication of an object.
    pub fn pargit_publish(&self, kind: ObjectKind, name: Option<String>) -> (r: Step<
        PublishFlow,
        Vec<String>,
    >)
        ensures
            r@ == PublishFlow::begun(kind, name.deep_view()),
    {
        PublishFlow::begin(kind, name)
    }

    /// Begins the start of an object.
    pub fn pargit_start(&self, kind: ObjectKind, name: &str, from_ref: Option<&str>) -> (r: Step<
        StartFlow,
        (),
    >)
        ensures
            r@ == StartFlowView::begun(
                kind,
                name@,
                match from_ref {
                    Some(s) => Some(s@),
                    None => None,
                },
            ),
    {
        StartFlow::begin(kind, name, from_ref)
    }

    /// Begins the release of a version in one go.
    pub fn release_version(
        &self,
        bump_kind: BumpKind,
        release_kind: ObjectKind,
        options: ReleaseOptions,
    ) -> (r: Step<ReleaseVersionFlow, ()>)
        ensures
            r@ == ReleaseVersionFlowView::begun(self@, bump_kind, release_kind, options),
    {
        ReleaseVersionFlow::begin(self, bump_kind, release_kind, options)
    }

    /// Begins the start of a release.
    pub fn release_start(&self, spec: VersionSpec, kind: ObjectKind, from_ref: Option<&str>) -> (r:
        Step<ReleaseStartFlow, Release>)
        ensures
            r@ == ReleaseStartFlowView::begun(
                self@,
                spec@,
                kind,
                match from_ref {
                    Some(s) => Some(s@),
                    None => None,
                },
            ),
    {
        ReleaseStartFlow::begin(self, spec, kind, from_ref)
    }

    /// Begins the finish of a release.
    pub fn release_finish(
        &self,
        release_name: Option<String>,
        tag: Option<String>,
        release_kind: ObjectKind,
        options: ReleaseOptions,
    ) -> (r: Step<ReleaseFinishFlow, ()>)
        ensures
            r@ == ReleaseFinishFlowView::begun(
                release_kind,
                release_name.deep_view(),
                tag.deep_view(),
                options,
            ),
    {
        ReleaseFinishFlow::begin(release_kind, release_name, tag, options)
    }
}

} // verus!
