//! Files that declare the version of a project.

use crate::commands::{VersionSpec, VersionSpecView};
use crate::project_types::rust::{
    holds_string_at, rewritten_manifest, version_keys, write_cargo_toml_version, ManifestError,
    ManifestErrorView,
};
use crate::version::{version_text, Version, VersionView};
use crate::views::result_view;
use vstd::prelude::*;

verus! {

/// One file that declares a version.
#[derive(Debug, PartialEq, Eq)]
pub enum VersionFile {
    /// A Cargo manifest. It declares the version of its own package, or,
    /// where `is_workspace` holds, the version that the packages of its
    /// workspace share.
    CargoToml { path: String, version: Version, is_workspace: bool },
}

/// What a [`VersionFile`] stands for.
pub enum VersionFileView {
    CargoToml { path: Seq<char>, version: VersionView, is_workspace: bool },
}

impl View for VersionFile {
    type V = VersionFileView;

    open spec fn view(&self) -> VersionFileView {
        match self {
            VersionFile::CargoToml { path, version, is_workspace } => VersionFileView::CargoToml {
                path: path@,
                version: version@,
                is_workspace: *is_workspace,
            },
        }
    }
}

impl DeepView for VersionFile {
    type V = VersionFileView;

    open spec fn deep_view(&self) -> VersionFileView {
        self@
    }
}

impl Clone for VersionFile {
    fn clone(&self) -> (r: Self)
        ensures
            r@ == self@,
    {
        match self {
            VersionFile::CargoToml { path, version, is_workspace } => VersionFile::CargoToml {
                path: path.clone(),
                version: version.clone(),
                is_workspace: *is_workspace,
            },
        }
    }
}

/// A copy of a list of version files.
pub fn clone_files(files: &Vec<VersionFile>) -> (r: Vec<VersionFile>)
    ensures
        r.deep_view() == files.deep_view(),
{
    let mut r: Vec<VersionFile> = Vec::new();
    let mut i: usize = 0;
    while i < files.len()
        invariant
            i <= files.len(),
            r.len() == i,
            forall|j: int| 0 <= j < i ==> r@[j]@ == files@[j]@,
        decreases files.len() - i,
    {
        r.push(files[i].clone());
        i += 1;
    }
    assert(r.deep_view() =~= files.deep_view());
    r
}

impl VersionFileView {
    /// The version that the file declares.
    pub open spec fn version(self) -> VersionView {
        match self {
            VersionFileView::CargoToml { version, .. } => version,
        }
    }

    /// Where the file lies.
    pub open spec fn path(self) -> Seq<char> {
        match self {
            VersionFileView::CargoToml { path, .. } => path,
        }
    }

    /// Whether the file declares the shared version of a workspace.
    pub open spec fn is_workspace(self) -> bool {
        match self {
            VersionFileView::CargoToml { is_workspace, .. } => is_workspace,
        }
    }

    /// The content of the file once it declares the version that `spec` asks
    /// for, where `content` is what it holds now. A bump is relative to the
    /// version that this file declares.
    pub open spec fn bumped(self, content: Seq<char>, spec: VersionSpecView) -> Result<
        Seq<char>,
        ManifestErrorView,
    > {
        match spec.target(self.version()) {
            None => Err(ManifestErrorView::Overflow { path: self.path() }),
            Some(v) => rewritten_manifest(self.path(), content, version_text(v), self.is_workspace()),
        }
    }
}

impl VersionFile {
    /// The content of the file once it declares the version that `spec` asks
    /// for, where `content` is what it holds now. A bump is relative to the
    /// version of this file. In the result the text of the new version is
    /// read from the version field of this file, and every other string of
    /// the file is read as before.
    pub fn bump(&self, content: &str, spec: VersionSpec) -> (r: Result<String, ManifestError>)
        ensures
            result_view(r) == self@.bumped(content@, spec@),
            r matches Ok(text) ==> spec@.target(self@.version()) matches Some(version)
                && holds_string_at(
                text@,
                content@,
                version_keys(self@.is_workspace()),
                version_text(version),
            ),
    {
        match self {
            VersionFile::CargoToml { path, version, is_workspace } => {
                match spec.resolve(version) {
                    None => Err(ManifestError::Overflow { path: path.clone() }),
                    Some(v) => write_cargo_toml_version(path.as_str(), content, &v, *is_workspace),
                }
            },
        }
    }

    /// The version that the file declares.
    pub fn version(&self) -> (r: Version)
        ensures
            r@ == self@.version(),
    {
        match self {
            VersionFile::CargoToml { version, .. } => version.clone(),
        }
    }

    /// Where the file lies.
    pub fn path(&self) -> (r: &str)
        ensures
            r@ == self@.path(),
    {
        match self {
            VersionFile::CargoToml { path, .. } => path.as_str(),
        }
    }

    /// Whether the file declares the shared version of a workspace.
    pub fn is_workspace(&self) -> (r: bool)
        ensures
            r == self@.is_workspace(),
    {
        match self {
            VersionFile::CargoToml { is_workspace, .. } => *is_workspace,
        }
    }

    /// What such a file is called.
    pub fn typename(&self) -> (r: &'static str)
        ensures
            r@ == "Cargo.toml"@,
    {
        match self {
            VersionFile::CargoToml { .. } => "Cargo.toml",
        }
    }
}

} // verus!
