//! The settings of a repository: branch names, tag prefix and project options.

use crate::text::joined;
use vstd::prelude::*;

verus! {

/// Settings of the project inside the repository.
#[derive(Debug, PartialEq, Eq)]
pub struct ProjectConfig {
    /// Directory of the project, relative to the root of the repository.
    pub subpath: Option<String>,
    /// Command that checks that the project still builds.
    pub compilation_command: Option<String>,
}

/// What a [`ProjectConfig`] stands for.
pub struct ProjectConfigView {
    pub subpath: Option<Seq<char>>,
    pub compilation_command: Option<Seq<char>>,
}

impl View for ProjectConfig {
    type V = ProjectConfigView;

    open spec fn view(&self) -> ProjectConfigView {
        ProjectConfigView {
            subpath: self.subpath.deep_view(),
            compilation_command: self.compilation_command.deep_view(),
        }
    }
}

/// Settings of a repository.
#[derive(Debug, PartialEq, Eq)]
pub struct Config {
    /// Former place of the project's directory; `project_config.subpath`
    /// replaces it.
    pub project_subpath: Option<String>,
    /// Prefix put before the version in the name of a release tag.
    pub tag_prefix: String,
    /// Name of the branch to which releases are merged.
    pub main_branch_name: String,
    /// Name of the branch on which development happens.
    pub develop_branch_name: String,
    pub project_config: ProjectConfig,
}

/// What a [`Config`] stands for.
pub struct ConfigView {
    pub project_subpath: Option<Seq<char>>,
    pub tag_prefix: Seq<char>,
    pub main_branch_name: Seq<char>,
    pub develop_branch_name: Seq<char>,
    pub project_config: ProjectConfigView,
}

impl View for Config {
    type V = ConfigView;

    open spec fn view(&self) -> ConfigView {
        ConfigView {
            project_subpath: self.project_subpath.deep_view(),
            tag_prefix: self.tag_prefix@,
            main_branch_name: self.main_branch_name@,
            develop_branch_name: self.develop_branch_name@,
            project_config: self.project_config@,
        }
    }
}

/// The name of the main branch where none is configured.
pub fn default_main_branch() -> (r: String)
    ensures
        r@ == "master"@,
{
    String::from_str("master")
}

/// The name of the develop branch where none is configured.
pub fn default_develop_branch() -> (r: String)
    ensures
        r@ == "develop"@,
{
    String::from_str("develop")
}

/// A tag name: the version behind the prefix under which the version was
/// found, or behind the configured prefix where it was found under none.
pub open spec fn tag_name(configured: Seq<char>, version: Seq<char>, found: Option<Seq<char>>) -> Seq<
    char,
> {
    match found {
        Some(prefix) => prefix + version,
        None => configured + version,
    }
}

/// A copy of an optional text.
pub fn clone_optional(text: &Option<String>) -> (r: Option<String>)
    ensures
        r.deep_view() == text.deep_view(),
{
    match text {
        Some(t) => Some(t.clone()),
        None => None,
    }
}

impl Clone for ProjectConfig {
    fn clone(&self) -> (r: Self)
        ensures
            r@ == self@,
    {
        ProjectConfig {
            subpath: clone_optional(&self.subpath),
            compilation_command: clone_optional(&self.compilation_command),
        }
    }
}

impl Clone for Config {
    fn clone(&self) -> (r: Self)
        ensures
            r@ == self@,
    {
        Config {
            project_subpath: clone_optional(&self.project_subpath),
            tag_prefix: self.tag_prefix.clone(),
            main_branch_name: self.main_branch_name.clone(),
            develop_branch_name: self.develop_branch_name.clone(),
            project_config: self.project_config.clone(),
        }
    }
}

impl Default for ProjectConfig {
    fn default() -> (r: Self)
        ensures
            r@ == (ProjectConfigView { subpath: None, compilation_command: None }),
    {
        ProjectConfig { subpath: None, compilation_command: None }
    }
}

impl Default for Config {
    /// The settings of a repository that configures nothing: no tag prefix,
    /// `master` as main branch and `develop` as develop branch.
    fn default() -> (r: Self)
        ensures
            r@ == Config::default_view(),
    {
        Config {
            project_subpath: None,
            tag_prefix: String::new(),
            main_branch_name: default_main_branch(),
            develop_branch_name: default_develop_branch(),
            project_config: ProjectConfig::default(),
        }
    }
}

impl Config {
    /// The settings of a repository that configures nothing.
    pub open spec fn default_view() -> ConfigView {
        ConfigView {
            project_subpath: None,
            tag_prefix: Seq::empty(),
            main_branch_name: "master"@,
            develop_branch_name: "develop"@,
            project_config: ProjectConfigView { subpath: None, compilation_command: None },
        }
    }

    /// The directory of the project relative to the root of the repository:
    /// the former setting where it is present, else the project's own, else
    /// the root itself.
    pub open spec fn subpath_text(config: ConfigView) -> Seq<char> {
        match config.project_subpath {
            Some(p) => p,
            None => match config.project_config.subpath {
                Some(p) => p,
                None => "."@,
            },
        }
    }

    /// The command that checks that the project still builds.
    pub open spec fn compilation_text(config: ConfigView) -> Seq<char> {
        match config.project_config.compilation_command {
            Some(c) => c,
            None => "cargo check --workspace --tests"@,
        }
    }

    /// A configuration file in which every setting is commented out and holds
    /// its default.
    pub fn sample() -> (r: &'static str)
        ensures
            r@ == Config::sample_text(),
    {
        "## Name of the branch to which releases are merged\n\
# main_branch_name = \"master\"\n\
## Name of the branch on which development happens\n\
# develop_branch_name = \"develop\"\n\
## Prefix put before the version in the name of a release tag\n\
# tag_prefix = \"\"\n\
\n\
# [project]\n\
## Directory of the project, relative to the root of the repository\n\
# subpath = \".\"\n\
## Command that checks that the project still builds\n\
# compilation_command = \"cargo check --workspace --tests\"\n"
    }

    /// The text of [`Config::sample`].
    pub closed spec fn sample_text() -> Seq<char> {
        "## Name of the branch to which releases are merged\n\
# main_branch_name = \"master\"\n\
## Name of the branch on which development happens\n\
# develop_branch_name = \"develop\"\n\
## Prefix put before the version in the name of a release tag\n\
# tag_prefix = \"\"\n\
\n\
# [project]\n\
## Directory of the project, relative to the root of the repository\n\
# subpath = \".\"\n\
## Command that checks that the project still builds\n\
# compilation_command = \"cargo check --workspace --tests\"\n"@
    }

    /// The name of the tag for `version`.
    pub fn get_tag_name(&self, version: &str, prefix: Option<String>) -> (r: String)
        ensures
            r@ == tag_name(self@.tag_prefix, version@, prefix.deep_view()),
    {
        match prefix {
            Some(p) => joined(p.as_str(), version),
            None => joined(self.tag_prefix.as_str(), version),
        }
    }

    /// The directory of the project relative to the root of the repository.
    pub fn project_subpath(&self) -> (r: String)
        ensures
            r@ == Config::subpath_text(self@),
    {
        match &self.project_subpath {
            Some(p) => p.clone(),
            None => match &self.project_config.subpath {
                Some(p) => p.clone(),
                None => String::from_str("."),
            },
        }
    }

    /// Whether the directory of the project comes from the former setting.
    pub fn uses_former_subpath(&self) -> (r: bool)
        ensures
            r == self@.project_subpath is Some,
    {
        self.project_subpath.is_some()
    }

    /// The command that checks that the project still builds.
    pub fn compilation_command(&self) -> (r: String)
        ensures
            r@ == Config::compilation_text(self@),
    {
        match &self.project_config.compilation_command {
            Some(c) => c.clone(),
            None => String::from_str("cargo check --workspace --tests"),
        }
    }
}

} // verus!
