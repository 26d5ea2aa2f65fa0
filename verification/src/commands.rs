//! What a caller can ask for: the commands and the values they carry.

use crate::text::same_text;
use crate::version::{
    can_bump, checked_next_version, next_version_spec, read_version, Version, VersionView,
};
use crate::views::result_view;
use vstd::prelude::*;

verus! {

/// Which number of a version a bump raises.
#[derive(Clone, Copy, Debug, PartialEq, Eq, Structural)]
pub enum BumpKind {
    Major,
    Minor,
    Patch,
}

/// How a release is finished.
#[derive(Clone, Copy, Debug, PartialEq, Eq, Structural)]
pub struct ReleaseOptions {
    /// Fail where a local branch is behind its upstream, and do not pull it.
    pub no_pull: bool,
}

impl BumpKind {
    /// The kind that `text` names: `major`, `minor` or `patch`.
    pub open spec fn named(text: Seq<char>) -> Option<BumpKind> {
        if text == "major"@ {
            Some(BumpKind::Major)
        } else if text == "minor"@ {
            Some(BumpKind::Minor)
        } else if text == "patch"@ {
            Some(BumpKind::Patch)
        } else {
            None
        }
    }

    /// Reads a kind from its lower-case name.
    pub fn parse(text: &str) -> (r: Option<BumpKind>)
        ensures
            r == BumpKind::named(text@),
    {
        if same_text(text, "major") {
            Some(BumpKind::Major)
        } else if same_text(text, "minor") {
            Some(BumpKind::Minor)
        } else if same_text(text, "patch") {
            Some(BumpKind::Patch)
        } else {
            None
        }
    }
}

/// The version that a release or a version file is to get: a given one, or
/// the one that a bump of the current version leads to.
#[derive(Debug, PartialEq, Eq)]
pub enum VersionSpec {
    Exact(Version),
    Bump(BumpKind),
}

/// What a [`VersionSpec`] stands for.
pub enum VersionSpecView {
    Exact(VersionView),
    Bump(BumpKind),
}

impl View for VersionSpec {
    type V = VersionSpecView;

    open spec fn view(&self) -> VersionSpecView {
        match self {
            VersionSpec::Exact(v) => VersionSpecView::Exact(v@),
            VersionSpec::Bump(k) => VersionSpecView::Bump(*k),
        }
    }
}

impl DeepView for VersionSpec {
    type V = VersionSpecView;

    open spec fn deep_view(&self) -> VersionSpecView {
        self@
    }
}

impl Clone for VersionSpec {
    fn clone(&self) -> (r: Self)
        ensures
            r@ == self@,
    {
        match self {
            VersionSpec::Exact(v) => VersionSpec::Exact(v.clone()),
            VersionSpec::Bump(k) => VersionSpec::Bump(*k),
        }
    }
}

impl VersionSpecView {
    /// What a text asks for: a bump where it names a kind, else the version
    /// that it spells, else the parse error's message.
    pub open spec fn read(text: Seq<char>) -> Result<VersionSpecView, Seq<char>> {
        match BumpKind::named(text) {
            Some(kind) => Ok(VersionSpecView::Bump(kind)),
            None => match read_version(text) {
                Ok(v) => Ok(VersionSpecView::Exact(v)),
                Err(e) => Err(e),
            },
        }
    }

    /// The version asked for where `current` is the version at hand, or
    /// `None` where the number to raise cannot grow.
    pub open spec fn target(self, current: VersionView) -> Option<VersionView> {
        match self {
            VersionSpecView::Exact(v) => Some(v),
            VersionSpecView::Bump(kind) => if can_bump(current, kind) {
                Some(next_version_spec(current, kind))
            } else {
                None
            },
        }
    }
}

impl VersionSpec {
    /// Reads what a text asks for.
    pub fn parse(text: &str) -> (r: Result<VersionSpec, String>)
        ensures
            result_view(r) == VersionSpecView::read(text@),
    {
        match BumpKind::parse(text) {
            Some(kind) => Ok(VersionSpec::Bump(kind)),
            None => match Version::parse(text) {
                Ok(v) => Ok(VersionSpec::Exact(v)),
                Err(e) => Err(e),
            },
        }
    }

    /// The version asked for where `current` is the version at hand.
    pub fn resolve(&self, current: &Version) -> (r: Option<Version>)
        ensures
            r.deep_view() == self@.target(current@),
    {
        match self {
            VersionSpec::Exact(v) => Some(v.clone()),
            VersionSpec::Bump(kind) => checked_next_version(current, *kind),
        }
    }
}

/// What can be done with the objects of a kind that is no release.
#[derive(Debug, PartialEq, Eq)]
pub enum FlowCommand {
    Start { name: String, from_ref: Option<String> },
    Publish { name: Option<String> },
    Delete { name: Option<String> },
    Finish { name: Option<String> },
}

/// What a [`FlowCommand`] stands for.
pub enum FlowCommandView {
    Start { name: Seq<char>, from_ref: Option<Seq<char>> },
    Publish { name: Option<Seq<char>> },
    Delete { name: Option<Seq<char>> },
    Finish { name: Option<Seq<char>> },
}

impl View for FlowCommand {
    type V = FlowCommandView;

    open spec fn view(&self) -> FlowCommandView {
        match self {
            FlowCommand::Start { name, from_ref } => FlowCommandView::Start {
                name: name@,
                from_ref: from_ref.deep_view(),
            },
            FlowCommand::Publish { name } => FlowCommandView::Publish { name: name.deep_view() },
            FlowCommand::Delete { name } => FlowCommandView::Delete { name: name.deep_view() },
            FlowCommand::Finish { name } => FlowCommandView::Finish { name: name.deep_view() },
        }
    }
}

/// What can be done with the version of the project.
#[derive(Clone, Copy, Debug, PartialEq, Eq, Structural)]
pub enum VersionCommand {
    Bump { kind: BumpKind },
}

/// What can be done with releases and hotfixes.
#[derive(Debug, PartialEq, Eq)]
pub enum ReleaseCommand {
    Start { spec: VersionSpec, from_ref: Option<String> },
    Publish { name: Option<String> },
    Delete { name: Option<String> },
    Finish { options: ReleaseOptions, name: Option<String> },
    Version { options: ReleaseOptions, kind: BumpKind },
}

/// What a [`ReleaseCommand`] stands for.
pub enum ReleaseCommandView {
    Start { spec: VersionSpecView, from_ref: Option<Seq<char>> },
    Publish { name: Option<Seq<char>> },
    Delete { name: Option<Seq<char>> },
    Finish { options: ReleaseOptions, name: Option<Seq<char>> },
    Version { options: ReleaseOptions, kind: BumpKind },
}

impl View for ReleaseCommand {
    type V = ReleaseCommandView;

    open spec fn view(&self) -> ReleaseCommandView {
        match self {
            ReleaseCommand::Start { spec, from_ref } => ReleaseCommandView::Start {
                spec: spec@,
                from_ref: from_ref.deep_view(),
            },
            ReleaseCommand::Publish { name } => ReleaseCommandView::Publish {
                name: name.deep_view(),
            },
            ReleaseCommand::Delete { name } => ReleaseCommandView::Delete { name: name.deep_view() },
            ReleaseCommand::Finish { options, name } => ReleaseCommandView::Finish {
                options: *options,
                name: name.deep_view(),
            },
            ReleaseCommand::Version { options, kind } => ReleaseCommandView::Version {
                options: *options,
                kind: *kind,
            },
        }
    }
}

/// What a caller can ask for.
#[derive(Debug, PartialEq, Eq)]
pub enum Command {
    /// Write a configuration file in which every setting is commented out.
    Configure,
    Hotfix(ReleaseCommand),
    Release(ReleaseCommand),
    Feature(FlowCommand),
    Bugfix(FlowCommand),
    Version(VersionCommand),
    /// Delete the flow branches that went into the remote develop branch.
    Cleanup,
}

/// What a [`Command`] stands for.
pub enum CommandView {
    Configure,
    Hotfix(ReleaseCommandView),
    Release(ReleaseCommandView),
    Feature(FlowCommandView),
    Bugfix(FlowCommandView),
    Version(VersionCommand),
    Cleanup,
}

impl View for Command {
    type V = CommandView;

    open spec fn view(&self) -> CommandView {
        match self {
            Command::Configure => CommandView::Configure,
            Command::Hotfix(c) => CommandView::Hotfix(c@),
            Command::Release(c) => CommandView::Release(c@),
            Command::Feature(c) => CommandView::Feature(c@),
            Command::Bugfix(c) => CommandView::Bugfix(c@),
            Command::Version(c) => CommandView::Version(*c),
            Command::Cleanup => CommandView::Cleanup,
        }
    }
}

/// How much is logged.
#[derive(Clone, Copy, Debug, PartialEq, Eq, Structural)]
pub enum LogLevel {
    Error,
    Warn,
    Info,
    Debug,
}

/// The level at which is logged where more was asked for `verbosity` times
/// and less `quietness` times: `Info` where neither was asked for, one level
/// up or down for each time, and no further than `Debug` and `Error`.
pub open spec fn level_of(verbosity: int, quietness: int) -> LogLevel {
    if verbosity + 2 - quietness <= 0 {
        LogLevel::Error
    } else if verbosity + 2 - quietness == 1 {
        LogLevel::Warn
    } else if verbosity + 2 - quietness == 2 {
        LogLevel::Info
    } else {
        LogLevel::Debug
    }
}

/// The level at which is logged.
pub fn log_level(verbosity: u8, quietness: u8) -> (r: LogLevel)
    ensures
        r == level_of(verbosity as int, quietness as int),
{
    let raised: u16 = verbosity as u16 + 2;
    let lowered: u16 = quietness as u16;
    if raised <= lowered {
        LogLevel::Error
    } else if raised - lowered == 1 {
        LogLevel::Warn
    } else if raised - lowered == 2 {
        LogLevel::Info
    } else {
        LogLevel::Debug
    }
}

} // verus!
