//! Operations as resumable state machines.
//!
//! An operation never touches the repository itself. It asks: each step
//! hands out a [`Request`], the caller carries it out and hands back a
//! [`Reply`], and the operation decides what comes next. What it decides is
//! stated for every state and every reply.

pub mod bump;
pub mod delete;
pub mod finish;
pub mod gather;
pub mod laws;
pub mod open;
pub mod publish;
pub mod release_finish;
pub mod release_start;
pub mod release_version;
pub mod rewrite;
pub mod start;
pub mod unwind;

use crate::object_kind::ObjectKind;
use crate::project_types::rust::{ManifestError, ManifestErrorView, ManifestSource, ManifestSourceView};
use crate::release::ResolveError;
use crate::text::{joined, joined3, joined4, quoted, quoted_text};
use vstd::prelude::*;

verus! {

/// What an operation asks its caller to do.
#[derive(Debug, PartialEq, Eq)]
pub enum Request {
    /// Name the branch that is checked out. Answered with `Text`.
    CurrentBranch,
    /// Look for a local branch. Answered with `Done` or `Missing`.
    FindBranch { name: String },
    /// Name the upstream of a local branch, as `remote/branch`. Answered
    /// with `Text`, or `Missing` where it has none.
    Upstream { branch: String },
    /// Create a local branch at a start point.
    CreateBranch { name: String, start_point: String },
    /// Check a local branch out.
    SwitchTo { branch: String },
    /// Merge a branch into the one that is checked out.
    Merge { branch: String, message: String },
    /// Give up a merge that did not go through, so that the working tree is
    /// as it was before it.
    AbortMerge,
    /// Delete a local branch.
    DeleteBranch { name: String },
    /// Delete a branch of a remote.
    DeleteRemoteBranch { remote: String, branch: String },
    /// Say whether a tag exists. Answered with `Flag`.
    HasTag { name: String },
    /// List the tags. Answered with `Texts`.
    ListTags,
    /// Create an annotated tag at the commit that is checked out.
    CreateTag { name: String },
    /// Delete a local tag.
    DeleteTag { name: String },
    /// Say whether the working tree holds changes. Answered with `Flag`.
    IsDirty,
    /// Commit every change of the working tree.
    CommitAll { message: String },
    /// Push a local ref to a ref of the remote `origin`; `track` makes the
    /// remote ref the upstream. Answered with `Text`, the remote's output, or
    /// `Done`.
    Push { source: String, target: String, track: bool },
    /// Push the tags to the remote `origin`.
    PushTags,
    /// Fetch, and say whether a local branch holds all of its upstream.
    /// Answered with `Flag`.
    IsUpToDate { branch: String },
    /// Pull a branch from its upstream.
    Pull { branch: String, ff_only: bool },
    /// Run the command that checks that the project still builds.
    Verify { command: String },
    /// Read the manifests of the project. Answered with `Manifests`.
    ReadManifests,
    /// Let the user choose one of the options. Answered with `Index`.
    Choose { prompt: String, options: Vec<String> },
    /// Read a file. Answered with `Text`.
    ReadFile { path: String },
    /// Replace the content of a file.
    WriteFile { path: String, content: String },
    /// Ask the user a yes-or-no question. Answered with `Flag`.
    Confirm { prompt: String },
    /// Create a local branch that follows the branch of the same name of the
    /// remote `origin`.
    TrackRemote { branch: String },
}

/// What a [`Request`] stands for.
pub enum RequestView {
    CurrentBranch,
    FindBranch { name: Seq<char> },
    Upstream { branch: Seq<char> },
    CreateBranch { name: Seq<char>, start_point: Seq<char> },
    SwitchTo { branch: Seq<char> },
    Merge { branch: Seq<char>, message: Seq<char> },
    AbortMerge,
    DeleteBranch { name: Seq<char> },
    DeleteRemoteBranch { remote: Seq<char>, branch: Seq<char> },
    HasTag { name: Seq<char> },
    ListTags,
    CreateTag { name: Seq<char> },
    DeleteTag { name: Seq<char> },
    IsDirty,
    CommitAll { message: Seq<char> },
    Push { source: Seq<char>, target: Seq<char>, track: bool },
    PushTags,
    IsUpToDate { branch: Seq<char> },
    Pull { branch: Seq<char>, ff_only: bool },
    Verify { command: Seq<char> },
    ReadManifests,
    Choose { prompt: Seq<char>, options: Seq<Seq<char>> },
    ReadFile { path: Seq<char> },
    WriteFile { path: Seq<char>, content: Seq<char> },
    Confirm { prompt: Seq<char> },
    TrackRemote { branch: Seq<char> },
}

impl View for Request {
    type V = RequestView;

    open spec fn view(&self) -> RequestView {
        match self {
            Request::CurrentBranch => RequestView::CurrentBranch,
            Request::FindBranch { name } => RequestView::FindBranch { name: name@ },
            Request::Upstream { branch } => RequestView::Upstream { branch: branch@ },
            Request::CreateBranch { name, start_point } => RequestView::CreateBranch {
                name: name@,
                start_point: start_point@,
            },
            Request::SwitchTo { branch } => RequestView::SwitchTo { branch: branch@ },
            Request::Merge { branch, message } => RequestView::Merge {
                branch: branch@,
                message: message@,
            },
            Request::AbortMerge => RequestView::AbortMerge,
            Request::DeleteBranch { name } => RequestView::DeleteBranch { name: name@ },
            Request::DeleteRemoteBranch { remote, branch } => RequestView::DeleteRemoteBranch {
                remote: remote@,
                branch: branch@,
            },
            Request::HasTag { name } => RequestView::HasTag { name: name@ },
            Request::ListTags => RequestView::ListTags,
            Request::CreateTag { name } => RequestView::CreateTag { name: name@ },
            Request::DeleteTag { name } => RequestView::DeleteTag { name: name@ },
            Request::IsDirty => RequestView::IsDirty,
            Request::CommitAll { message } => RequestView::CommitAll { message: message@ },
            Request::Push { source, target, track } => RequestView::Push {
                source: source@,
                target: target@,
                track: *track,
            },
            Request::PushTags => RequestView::PushTags,
            Request::IsUpToDate { branch } => RequestView::IsUpToDate { branch: branch@ },
            Request::Pull { branch, ff_only } => RequestView::Pull {
                branch: branch@,
                ff_only: *ff_only,
            },
            Request::Verify { command } => RequestView::Verify { command: command@ },
            Request::ReadManifests => RequestView::ReadManifests,
            Request::Choose { prompt, options } => RequestView::Choose {
                prompt: prompt@,
                options: options.deep_view(),
            },
            Request::ReadFile { path } => RequestView::ReadFile { path: path@ },
            Request::WriteFile { path, content } => RequestView::WriteFile {
                path: path@,
                content: content@,
            },
            Request::Confirm { prompt } => RequestView::Confirm { prompt: prompt@ },
            Request::TrackRemote { branch } => RequestView::TrackRemote { branch: branch@ },
        }
    }
}

impl DeepView for Request {
    type V = RequestView;

    open spec fn deep_view(&self) -> RequestView {
        self@
    }
}

impl RequestView {
    /// Whether carrying the request out leaves the repository, its remote and
    /// the files of the project as they are.
    pub open spec fn is_query(self) -> bool {
        match self {
            RequestView::CurrentBranch => true,
            RequestView::FindBranch { .. } => true,
            RequestView::Upstream { .. } => true,
            RequestView::HasTag { .. } => true,
            RequestView::ListTags => true,
            RequestView::IsDirty => true,
            RequestView::ReadManifests => true,
            RequestView::Choose { .. } => true,
            RequestView::ReadFile { .. } => true,
            RequestView::Confirm { .. } => true,
            _ => false,
        }
    }
}

/// What came of a [`Request`].
#[derive(Debug, PartialEq, Eq)]
pub enum Reply {
    /// The request was carried out.
    Done,
    /// The request failed; the message is what the repository or the command
    /// reported.
    Failed { message: String },
    /// What was asked for does not exist.
    Missing,
    Flag(bool),
    Text(String),
    Texts(Vec<String>),
    Manifests(Vec<ManifestSource>),
    Index(usize),
}

/// What a [`Reply`] stands for.
pub enum ReplyView {
    Done,
    Failed { message: Seq<char> },
    Missing,
    Flag(bool),
    Text(Seq<char>),
    Texts(Seq<Seq<char>>),
    Manifests(Seq<ManifestSourceView>),
    Index(int),
}

impl View for Reply {
    type V = ReplyView;

    open spec fn view(&self) -> ReplyView {
        match self {
            Reply::Done => ReplyView::Done,
            Reply::Failed { message } => ReplyView::Failed { message: message@ },
            Reply::Missing => ReplyView::Missing,
            Reply::Flag(b) => ReplyView::Flag(*b),
            Reply::Text(t) => ReplyView::Text(t@),
            Reply::Texts(ts) => ReplyView::Texts(ts.deep_view()),
            Reply::Manifests(ms) => ReplyView::Manifests(ms.deep_view()),
            Reply::Index(i) => ReplyView::Index(*i as int),
        }
    }
}

/// Why an operation failed.
#[derive(Debug, PartialEq, Eq)]
pub enum FlowError {
    /// The repository or a command failed; the message is what it reported.
    Backend { message: String },
    /// The caller answered a request with a reply of another shape.
    UnexpectedReply,
    /// The branch of the object does not exist.
    BranchNotFound { branch: String },
    /// The object is already in progress; it has to be finished first.
    AlreadyInProgress { kind: ObjectKind, name: String },
    /// No name was given and the branch that is checked out is not of the kind.
    NoCurrentName { kind: ObjectKind, branch: String },
    /// The tag of the release exists already.
    TagExists { tag: String },
    /// The working tree holds changes.
    Dirty,
    /// The working tree holds changes after the project was built: what the
    /// build writes was not committed.
    DirtyAfterBuild,
    /// A local branch is behind its upstream and pulling was ruled out.
    BehindRemote { branch: String },
    /// A local branch is behind its upstream even after it was pulled.
    StillBehind { branch: String },
    /// The project does not build.
    BuildFailed { message: String },
    /// The release branch could not be merged; what had been done was undone.
    MergeFailed { message: String },
    /// The tag could not be made or the push was rejected; what had been
    /// done was undone.
    RolledBack { kind: ObjectKind, message: String },
    /// No release could be resolved.
    Resolve { reason: ResolveError },
    /// A version file could not be read or rewritten.
    Manifest { error: ManifestError },
    /// There is no version file to bump.
    NoVersionFiles,
    /// A required branch does not exist.
    MissingBranch { branch: String },
    /// A version file does not lie where a path relative to the project can
    /// lead to it.
    NotUnderProject { path: String },
}

/// What a [`FlowError`] stands for.
pub enum FlowErrorView {
    Backend { message: Seq<char> },
    UnexpectedReply,
    BranchNotFound { branch: Seq<char> },
    AlreadyInProgress { kind: ObjectKind, name: Seq<char> },
    NoCurrentName { kind: ObjectKind, branch: Seq<char> },
    TagExists { tag: Seq<char> },
    Dirty,
    DirtyAfterBuild,
    BehindRemote { branch: Seq<char> },
    StillBehind { branch: Seq<char> },
    BuildFailed { message: Seq<char> },
    MergeFailed { message: Seq<char> },
    RolledBack { kind: ObjectKind, message: Seq<char> },
    Resolve { reason: ResolveError },
    Manifest { error: ManifestErrorView },
    NoVersionFiles,
    MissingBranch { branch: Seq<char> },
    NotUnderProject { path: Seq<char> },
}

impl View for FlowError {
    type V = FlowErrorView;

    open spec fn view(&self) -> FlowErrorView {
        match self {
            FlowError::Backend { message } => FlowErrorView::Backend { message: message@ },
            FlowError::UnexpectedReply => FlowErrorView::UnexpectedReply,
            FlowError::BranchNotFound { branch } => FlowErrorView::BranchNotFound {
                branch: branch@,
            },
            FlowError::AlreadyInProgress { kind, name } => FlowErrorView::AlreadyInProgress {
                kind: *kind,
                name: name@,
            },
            FlowError::NoCurrentName { kind, branch } => FlowErrorView::NoCurrentName {
                kind: *kind,
                branch: branch@,
            },
            FlowError::TagExists { tag } => FlowErrorView::TagExists { tag: tag@ },
            FlowError::Dirty => FlowErrorView::Dirty,
            FlowError::DirtyAfterBuild => FlowErrorView::DirtyAfterBuild,
            FlowError::BehindRemote { branch } => FlowErrorView::BehindRemote { branch: branch@ },
            FlowError::StillBehind { branch } => FlowErrorView::StillBehind { branch: branch@ },
            FlowError::BuildFailed { message } => FlowErrorView::BuildFailed { message: message@ },
            FlowError::MergeFailed { message } => FlowErrorView::MergeFailed { message: message@ },
            FlowError::RolledBack { kind, message } => FlowErrorView::RolledBack {
                kind: *kind,
                message: message@,
            },
            FlowError::Resolve { reason } => FlowErrorView::Resolve { reason: *reason },
            FlowError::Manifest { error } => FlowErrorView::Manifest { error: error@ },
            FlowError::NoVersionFiles => FlowErrorView::NoVersionFiles,
            FlowError::MissingBranch { branch } => FlowErrorView::MissingBranch { branch: branch@ },
            FlowError::NotUnderProject { path } => FlowErrorView::NotUnderProject { path: path@ },
        }
    }
}

impl FlowErrorView {
    /// The failure in words.
    pub open spec fn text(self) -> Seq<char> {
        match self {
            FlowErrorView::Backend { message } => message,
            FlowErrorView::UnexpectedReply => "The repository gave an unexpected answer"@,
            FlowErrorView::BranchNotFound { branch } => "branch not found: "@ + branch,
            FlowErrorView::AlreadyInProgress { kind, name } => kind.name_text() + " "@ + name
                + " already in progress. Finish it first"@,
            FlowErrorView::NoCurrentName {
                kind,
                ..
            } => "Cannot get release name from branch name: Could not get current "@
                + kind.name_text() + " name"@,
            FlowErrorView::TagExists { tag } => "Tag "@ + tag + " already exists"@,
            FlowErrorView::Dirty => "Repository is dirty!"@,
            FlowErrorView::DirtyAfterBuild => "Repository became dirty after build attempt. Perhaps Cargo.lock was not a part of the last commit?"@,
            FlowErrorView::BehindRemote { branch } => "Local "@ + branch
                + " branch is behind its remote branch. Update it before creating a release."@,
            FlowErrorView::StillBehind { branch } => "Local "@ + branch
                + " branch is still behind its remote branch after it was pulled"@,
            FlowErrorView::BuildFailed { message } => "Failed building project: "@ + message,
            FlowErrorView::MergeFailed { message } => "Failed merge: "@ + message,
            FlowErrorView::RolledBack { kind, message } => "Failed pushing new "@ + kind.name_text()
                + " - Failed tag and push: "@ + message,
            FlowErrorView::Resolve { reason } => reason.text(),
            FlowErrorView::Manifest { error } => error.text(),
            FlowErrorView::NoVersionFiles => "Could not find version files to bump"@,
            FlowErrorView::MissingBranch { branch } => "branch not found: "@ + branch,
            FlowErrorView::NotUnderProject { path } => "No relative path leads from the project to "@
                + quoted_text(path),
        }
    }

    /// What is told of a release that stands upstream while what was to
    /// follow it locally did not all happen: that it did happen, why the
    /// rest failed, and that it is not undone.
    pub open spec fn stranded_text(self) -> Seq<char> {
        "The release was pushed and stands upstream, but the steps that follow it locally failed: "@
            + self.text()
            + ". The release is not undone; finish the local steps by hand."@
    }
}

impl FlowError {
    /// The failure in words.
    pub fn to_text(&self) -> (r: String)
        ensures
            r@ == self@.text(),
    {
        match self {
            FlowError::Backend { message } => message.clone(),
            FlowError::UnexpectedReply => String::from_str("The repository gave an unexpected answer"),
            FlowError::BranchNotFound { branch } => joined("branch not found: ", branch.as_str()),
            FlowError::AlreadyInProgress { kind, name } => joined4(
                kind.name(),
                " ",
                name.as_str(),
                " already in progress. Finish it first",
            ),
            FlowError::NoCurrentName { kind, .. } => joined3(
                "Cannot get release name from branch name: Could not get current ",
                kind.name(),
                " name",
            ),
            FlowError::TagExists { tag } => joined3("Tag ", tag.as_str(), " already exists"),
            FlowError::Dirty => String::from_str("Repository is dirty!"),
            FlowError::DirtyAfterBuild => String::from_str(
                "Repository became dirty after build attempt. Perhaps Cargo.lock was not a part of the last commit?",
            ),
            FlowError::BehindRemote { branch } => joined3(
                "Local ",
                branch.as_str(),
                " branch is behind its remote branch. Update it before creating a release.",
            ),
            FlowError::StillBehind { branch } => joined3(
                "Local ",
                branch.as_str(),
                " branch is still behind its remote branch after it was pulled",
            ),
            FlowError::BuildFailed { message } => joined(
                "Failed building project: ",
                message.as_str(),
            ),
            FlowError::MergeFailed { message } => joined("Failed merge: ", message.as_str()),
            FlowError::RolledBack { kind, message } => joined4(
                "Failed pushing new ",
                kind.name(),
                " - Failed tag and push: ",
                message.as_str(),
            ),
            FlowError::Resolve { reason } => reason.to_text(),
            FlowError::Manifest { error } => error.to_text(),
            FlowError::NoVersionFiles => String::from_str("Could not find version files to bump"),
            FlowError::MissingBranch { branch } => joined("branch not found: ", branch.as_str()),
            FlowError::NotUnderProject { path } => {
                let path = quoted(path.as_str());
                joined("No relative path leads from the project to ", path.as_str())
            },
        }
    }

    /// What is told of a release that stands upstream while what was to
    /// follow it locally did not all happen.
    pub fn to_stranded_text(&self) -> (r: String)
        ensures
            r@ == self@.stranded_text(),
    {
        let text = self.to_text();
        joined3(
            "The release was pushed and stands upstream, but the steps that follow it locally failed: ",
            text.as_str(),
            ". The release is not undone; finish the local steps by hand.",
        )
    }
}

/// Where an operation stands after a step.
#[derive(Debug, PartialEq, Eq)]
pub enum Step<F, T> {
    /// The operation goes on once the request is answered.
    Ask(F, Request),
    /// The operation is done.
    Done(T),
    /// The operation failed. Where it is the finish of a release, the release
    /// did not happen.
    Failed(FlowError),
    /// The release stands upstream, but what was to follow it locally did
    /// not all happen. The release is not undone.
    Stranded(FlowError),
}

/// What a [`Step`] stands for.
pub enum StepView<F, T> {
    Ask(F, RequestView),
    Done(T),
    Failed(FlowErrorView),
    Stranded(FlowErrorView),
}

impl<F: DeepView, T: DeepView> View for Step<F, T> {
    type V = StepView<F::V, T::V>;

    open spec fn view(&self) -> StepView<F::V, T::V> {
        match self {
            Step::Ask(flow, request) => StepView::Ask(flow.deep_view(), request@),
            Step::Done(value) => StepView::Done(value.deep_view()),
            Step::Failed(error) => StepView::Failed(error@),
            Step::Stranded(error) => StepView::Stranded(error@),
        }
    }
}

/// The failure that a reply to an acting request reports: the backend's
/// message where it failed, something missing or a reply of another shape
/// where the caller did not answer as asked.
pub open spec fn failure_of(reply: ReplyView) -> FlowErrorView {
    match reply {
        ReplyView::Failed { message } => FlowErrorView::Backend { message },
        _ => FlowErrorView::UnexpectedReply,
    }
}

/// The object of `kind` that a reply to `CurrentBranch` names: the branch
/// that is checked out, without the prefix of the kind. It is a failure where
/// that branch is not of the kind.
pub open spec fn named_by(kind: ObjectKind, reply: ReplyView) -> Result<Seq<char>, FlowErrorView> {
    match reply {
        ReplyView::Text(branch) => match kind.object_text(branch) {
            Some(name) => Ok(name),
            None => Err(FlowErrorView::NoCurrentName { kind, branch }),
        },
        _ => Err(failure_of(reply)),
    }
}

/// The object of `kind` that a reply to `CurrentBranch` names.
pub fn name_from_reply(kind: ObjectKind, reply: Reply) -> (r: Result<String, FlowError>)
    ensures
        match r {
            Ok(name) => named_by(kind, reply@) == Ok::<Seq<char>, FlowErrorView>(name@),
            Err(e) => named_by(kind, reply@) == Err::<Seq<char>, FlowErrorView>(e@),
        },
{
    match reply {
        Reply::Text(branch) => match kind.object_name(branch.as_str()) {
            Some(name) => Ok(name),
            None => Err(FlowError::NoCurrentName { kind, branch }),
        },
        _ => Err(reply_failure(reply)),
    }
}

/// The failure that a reply reports.
pub fn reply_failure(reply: Reply) -> (r: FlowError)
    ensures
        r@ == failure_of(reply@),
{
    match reply {
        Reply::Failed { message } => FlowError::Backend { message },
        _ => FlowError::UnexpectedReply,
    }
}

} // verus!
