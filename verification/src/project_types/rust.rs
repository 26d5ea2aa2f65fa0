//! Cargo manifests: where they declare a version and how it is rewritten.
//!
//! Reading and editing TOML is done by the `toml_edit` crate; the functions
//! that call it are the trusted edge of this module.

use crate::text::{joined, joined4, quoted, quoted_text, same_text};
use crate::version::{read_version, version_text, Version, VersionView};
use crate::version_file::{VersionFile, VersionFileView};
use crate::views::result_view;
use vstd::prelude::*;

verus! {

/// The string that `toml_edit` finds in a document where the keys lead, one
/// table after the other: `None` where they lead to no string, or the message
/// of the parse error where the text is no TOML document.
pub uninterp spec fn toml_string_at(content: Seq<char>, keys: Seq<Seq<char>>) -> Result<
    Option<Seq<char>>,
    Seq<char>,
>;

/// What stands before and behind the value where the keys lead, as
/// `toml_edit` keeps it with the value: the white space and the comment
/// around it. `None` where the keys lead to no value.
pub uninterp spec fn toml_around_at(content: Seq<char>, keys: Seq<Seq<char>>) -> Result<
    Option<(Seq<char>, Seq<char>)>,
    Seq<char>,
>;

/// The document as `toml_edit` prints it once the string `value`, with
/// `before` and `after` around it, stands where the keys lead; or the message
/// of the parse error.
pub uninterp spec fn toml_with_string_at(
    content: Seq<char>,
    keys: Seq<Seq<char>>,
    value: Seq<char>,
    before: Seq<char>,
    after: Seq<char>,
) -> Result<Seq<char>, Seq<char>>;

/// Whether `text` is `content` with the string where `keys` lead replaced by
/// `value`, as far as reading strings from it can tell: `value` is read where
/// the keys lead, and what is read anywhere else is what was read before.
pub open spec fn holds_string_at(
    text: Seq<char>,
    content: Seq<char>,
    keys: Seq<Seq<char>>,
    value: Seq<char>,
) -> bool {
    &&& toml_string_at(text, keys) == Ok::<Option<Seq<char>>, Seq<char>>(Some(value))
    &&& forall|other: Seq<Seq<char>>|
        other != keys ==> #[trigger] toml_string_at(text, other) == toml_string_at(content, other)
}

/// What holds of a replacement that went through with the decoration that
/// the old value had: the new string is read where the keys lead, and every
/// other string as before.
pub open spec fn replaced_in_place(
    result: Result<Seq<char>, Seq<char>>,
    content: Seq<char>,
    keys: Seq<Seq<char>>,
    value: Seq<char>,
    before: Seq<char>,
    after: Seq<char>,
) -> bool {
    match result {
        Ok(text) => toml_around_at(content, keys) == Ok::<Option<(Seq<char>, Seq<char>)>, Seq<char>>(
            Some((before, after)),
        ) ==> holds_string_at(text, content, keys, value),
        Err(_) => true,
    }
}

/// Looks a string up with `toml_edit`: parses the document, follows the keys
/// with `Item::get`, and reads the string with `Item::as_str`.
///
/// Trusted: the result is named by [`toml_string_at`].
#[verifier::external_body]
fn toml_lookup(content: &str, keys: &Vec<String>) -> (r: Result<Option<String>, String>)
    ensures
        result_view(r) == toml_string_at(content@, keys.deep_view()),
{
    match content.parse::<toml_edit::DocumentMut>() {
        Ok(doc) => {
            let mut item = Some(doc.as_item());
            for key in keys {
                item = item.and_then(|i| i.get(key.as_str()));
            }
            Ok(item.and_then(|i| i.as_str()).map(String::from))
        },
        Err(e) => Err(e.to_string()),
    }
}

/// Reads what stands around a value with `toml_edit`: parses the document,
/// follows the keys with `Item::get`, and reads prefix and suffix of the
/// decoration of the value.
///
/// Trusted: the result is named by [`toml_around_at`]. A value of a parsed
/// document has both, so there is a result wherever a string is found.
#[verifier::external_body]
fn toml_around(content: &str, keys: &Vec<String>) -> (r: Result<Option<(String, String)>, String>)
    ensures
        result_view(r) == toml_around_at(content@, keys.deep_view()),
        toml_string_at(content@, keys.deep_view()) matches Ok(Some(_)) ==> r matches Ok(Some(_)),
{
    match content.parse::<toml_edit::DocumentMut>() {
        Ok(doc) => {
            let mut item = Some(doc.as_item());
            for key in keys {
                item = item.and_then(|i| i.get(key.as_str()));
            }
            let decor = item.and_then(|i| i.as_value()).map(|v| v.decor());
            let text = |raw: Option<&toml_edit::RawString>| Some(raw?.as_str()?.to_string());
            Ok(decor.and_then(|d| Some((text(d.prefix())?, text(d.suffix())?))))
        },
        Err(e) => Err(e.to_string()),
    }
}

/// Puts a string where the keys lead with `toml_edit`: parses the document,
/// follows the keys by indexing, assigns the string as a value with `before`
/// and `after` as its decoration, and prints the document.
///
/// Trusted: the result is named by [`toml_with_string_at`]. Where the value
/// keeps the decoration that it had, the printed document is one in which the
/// new string is read where the keys lead and every other string as before.
/// Indexing panics on a key that leads through something that is no table; a
/// document in which a string is found where the keys lead has tables there.
#[verifier::external_body]
fn toml_replace(content: &str, keys: &Vec<String>, value: &str, before: &str, after: &str) -> (r:
    Result<String, String>)
    requires
        toml_string_at(content@, keys.deep_view()) matches Ok(Some(_)),
    ensures
        result_view(r) == toml_with_string_at(
            content@,
            keys.deep_view(),
            value@,
            before@,
            after@,
        ),
        replaced_in_place(result_view(r), content@, keys.deep_view(), value@, before@, after@),
{
    match content.parse::<toml_edit::DocumentMut>() {
        Ok(mut doc) => {
            let mut item = doc.as_item_mut();
            for key in keys {
                item = &mut item[key.as_str()];
            }
            *item = toml_edit::Item::Value(toml_edit::Value::from(value).decorated(before, after));
            Ok(doc.to_string())
        },
        Err(e) => Err(e.to_string()),
    }
}

/// The keys that lead to the version in a manifest: `package.version` for
/// the version of the package, `workspace.package.version` for the version
/// that the packages of a workspace share.
pub open spec fn version_keys(is_workspace: bool) -> Seq<Seq<char>> {
    if is_workspace {
        seq!["workspace"@, "package"@, "version"@]
    } else {
        seq!["package"@, "version"@]
    }
}

/// The text of the version that a manifest declares for its package, or for
/// its workspace where `is_workspace` holds.
pub open spec fn declared_version(content: Seq<char>, is_workspace: bool) -> Result<
    Option<Seq<char>>,
    Seq<char>,
> {
    toml_string_at(content, version_keys(is_workspace))
}

/// The keys that lead to the version in a manifest.
pub fn version_path(is_workspace: bool) -> (r: Vec<String>)
    ensures
        r.deep_view() == version_keys(is_workspace),
{
    let mut keys: Vec<String> = Vec::new();
    if is_workspace {
        keys.push(String::from_str("workspace"));
    }
    keys.push(String::from_str("package"));
    keys.push(String::from_str("version"));
    assert(keys.deep_view() =~= version_keys(is_workspace));
    keys
}

/// Reads the text of the version that a manifest declares for its package,
/// or for its workspace where `is_workspace` holds.
pub fn declared_version_text(content: &str, is_workspace: bool) -> (r: Result<
    Option<String>,
    String,
>)
    ensures
        result_view(r) == declared_version(content@, is_workspace),
{
    let keys = version_path(is_workspace);
    toml_lookup(content, &keys)
}

/// Why a manifest could not be read or rewritten.
#[derive(Debug, PartialEq, Eq)]
pub enum ManifestError {
    /// The file is no TOML document.
    Parse { path: String, message: String },
    /// The version of the package is no semantic version.
    BadVersion { path: String, message: String },
    /// The version that the workspace shares is no semantic version.
    BadWorkspaceVersion { path: String, message: String },
    /// The file no longer holds the version field that is to be rewritten.
    NoVersionField { path: String },
    /// The number to raise is already the largest.
    Overflow { path: String },
    /// No manifest under the root declares a version.
    NoneFound { root: String },
}

/// What a [`ManifestError`] stands for.
pub enum ManifestErrorView {
    Parse { path: Seq<char>, message: Seq<char> },
    BadVersion { path: Seq<char>, message: Seq<char> },
    BadWorkspaceVersion { path: Seq<char>, message: Seq<char> },
    NoVersionField { path: Seq<char> },
    Overflow { path: Seq<char> },
    NoneFound { root: Seq<char> },
}

impl View for ManifestError {
    type V = ManifestErrorView;

    open spec fn view(&self) -> ManifestErrorView {
        match self {
            ManifestError::Parse { path, message } => ManifestErrorView::Parse {
                path: path@,
                message: message@,
            },
            ManifestError::BadVersion { path, message } => ManifestErrorView::BadVersion {
                path: path@,
                message: message@,
            },
            ManifestError::BadWorkspaceVersion {
                path,
                message,
            } => ManifestErrorView::BadWorkspaceVersion { path: path@, message: message@ },
            ManifestError::NoVersionField { path } => ManifestErrorView::NoVersionField {
                path: path@,
            },
            ManifestError::Overflow { path } => ManifestErrorView::Overflow { path: path@ },
            ManifestError::NoneFound { root } => ManifestErrorView::NoneFound { root: root@ },
        }
    }
}

impl ManifestErrorView {
    /// The failure in words.
    pub open spec fn text(self) -> Seq<char> {
        match self {
            ManifestErrorView::Parse { path, message } => "Failed parsing "@ + quoted_text(path)
                + ": "@ + message,
            ManifestErrorView::BadVersion { path, message } => "Failed parsing version for "@
                + quoted_text(path) + ": "@ + message,
            ManifestErrorView::BadWorkspaceVersion {
                path,
                message,
            } => "Failed parsing workspace package version for "@ + quoted_text(path) + ": "@
                + message,
            ManifestErrorView::NoVersionField { path } => "No version field found in "@
                + quoted_text(path),
            ManifestErrorView::Overflow { path } => "The version cannot grow further in "@
                + quoted_text(path),
            ManifestErrorView::NoneFound { root } => "Could not find Cargo.toml files in "@
                + quoted_text(root),
        }
    }
}

impl ManifestError {
    /// The failure in words.
    pub fn to_text(&self) -> (r: String)
        ensures
            r@ == self@.text(),
    {
        match self {
            ManifestError::Parse { path, message } => {
                let path = quoted(path.as_str());
                joined4("Failed parsing ", path.as_str(), ": ", message.as_str())
            },
            ManifestError::BadVersion { path, message } => {
                let path = quoted(path.as_str());
                joined4("Failed parsing version for ", path.as_str(), ": ", message.as_str())
            },
            ManifestError::BadWorkspaceVersion { path, message } => {
                let path = quoted(path.as_str());
                joined4(
                    "Failed parsing workspace package version for ",
                    path.as_str(),
                    ": ",
                    message.as_str(),
                )
            },
            ManifestError::NoVersionField { path } => {
                let path = quoted(path.as_str());
                joined("No version field found in ", path.as_str())
            },
            ManifestError::Overflow { path } => {
                let path = quoted(path.as_str());
                joined("The version cannot grow further in ", path.as_str())
            },
            ManifestError::NoneFound { root } => {
                let root = quoted(root.as_str());
                joined("Could not find Cargo.toml files in ", root.as_str())
            },
        }
    }
}

impl DeepView for ManifestError {
    type V = ManifestErrorView;

    open spec fn deep_view(&self) -> ManifestErrorView {
        self@
    }
}

impl Clone for ManifestError {
    fn clone(&self) -> (r: Self)
        ensures
            r@ == self@,
    {
        match self {
            ManifestError::Parse { path, message } => ManifestError::Parse {
                path: path.clone(),
                message: message.clone(),
            },
            ManifestError::BadVersion { path, message } => ManifestError::BadVersion {
                path: path.clone(),
                message: message.clone(),
            },
            ManifestError::BadWorkspaceVersion {
                path,
                message,
            } => ManifestError::BadWorkspaceVersion { path: path.clone(), message: message.clone() },
            ManifestError::NoVersionField { path } => ManifestError::NoVersionField {
                path: path.clone(),
            },
            ManifestError::Overflow { path } => ManifestError::Overflow { path: path.clone() },
            ManifestError::NoneFound { root } => ManifestError::NoneFound { root: root.clone() },
        }
    }
}

/// A manifest as it was read: where it lies, what it holds, and whether the
/// ignore rules of the repository leave it out.
#[derive(Debug, PartialEq, Eq)]
pub struct ManifestSource {
    pub path: String,
    pub content: String,
    pub ignored: bool,
}

/// What a [`ManifestSource`] stands for.
pub struct ManifestSourceView {
    pub path: Seq<char>,
    pub content: Seq<char>,
    pub ignored: bool,
}

impl View for ManifestSource {
    type V = ManifestSourceView;

    open spec fn view(&self) -> ManifestSourceView {
        ManifestSourceView { path: self.path@, content: self.content@, ignored: self.ignored }
    }
}

impl DeepView for ManifestSource {
    type V = ManifestSourceView;

    open spec fn deep_view(&self) -> ManifestSourceView {
        self@
    }
}

/// A version as a manifest declares it: its text, and whether it is the one
/// that a workspace shares.
#[derive(Debug, PartialEq, Eq)]
pub struct Declaration {
    pub text: String,
    pub is_workspace: bool,
}

/// What a [`Declaration`] stands for.
pub struct DeclarationView {
    pub text: Seq<char>,
    pub is_workspace: bool,
}

impl View for Declaration {
    type V = DeclarationView;

    open spec fn view(&self) -> DeclarationView {
        DeclarationView { text: self.text@, is_workspace: self.is_workspace }
    }
}

impl DeepView for Declaration {
    type V = DeclarationView;

    open spec fn deep_view(&self) -> DeclarationView {
        self@
    }
}

/// The declaration that counts, given what was found for the package and
/// for the workspace: that of the package where there is one, else that of
/// the workspace, else none. The two are never taken for one another.
pub open spec fn chosen_declaration(
    package: Result<Option<Seq<char>>, Seq<char>>,
    workspace: Result<Option<Seq<char>>, Seq<char>>,
) -> Result<Option<DeclarationView>, Seq<char>> {
    match package {
        Err(message) => Err(message),
        Ok(Some(text)) => Ok(Some(DeclarationView { text, is_workspace: false })),
        Ok(None) => match workspace {
            Err(message) => Err(message),
            Ok(Some(text)) => Ok(Some(DeclarationView { text, is_workspace: true })),
            Ok(None) => Ok(None),
        },
    }
}

/// The version file that a declaration makes, given what its text was read
/// as: a text that is no semantic version is an error.
pub open spec fn declared_file(
    path: Seq<char>,
    is_workspace: bool,
    version: Result<VersionView, Seq<char>>,
) -> Result<VersionFileView, ManifestErrorView> {
    match version {
        Ok(version) => Ok(VersionFileView::CargoToml { path, version, is_workspace }),
        Err(message) => if is_workspace {
            Err(ManifestErrorView::BadWorkspaceVersion { path, message })
        } else {
            Err(ManifestErrorView::BadVersion { path, message })
        },
    }
}

/// The version file that a manifest is: one of its package where
/// `package.version` is a string, else one of its workspace where
/// `workspace.package.version` is a string, else none. A version that is no
/// semantic version is an error.
pub open spec fn manifest_file(path: Seq<char>, content: Seq<char>) -> Result<
    Option<VersionFileView>,
    ManifestErrorView,
> {
    match chosen_declaration(declared_version(content, false), declared_version(content, true)) {
        Err(message) => Err(ManifestErrorView::Parse { path, message }),
        Ok(None) => Ok(None),
        Ok(Some(found)) => match declared_file(path, found.is_workspace, read_version(found.text)) {
            Ok(file) => Ok(Some(file)),
            Err(e) => Err(e),
        },
    }
}

/// The version files among `sources`, in their order, or the error of the
/// first manifest that cannot be read. A manifest that the ignore rules leave
/// out is passed over unread.
pub open spec fn collected_files(sources: Seq<ManifestSourceView>) -> Result<
    Seq<VersionFileView>,
    ManifestErrorView,
>
    decreases sources.len(),
{
    if sources.len() == 0 {
        Ok(Seq::empty())
    } else {
        match collected_files(sources.drop_last()) {
            Err(e) => Err(e),
            Ok(files) => if sources.last().ignored {
                Ok(files)
            } else {
                match manifest_file(sources.last().path, sources.last().content) {
                    Err(e) => Err(e),
                    Ok(Some(file)) => Ok(files.push(file)),
                    Ok(None) => Ok(files),
                }
            },
        }
    }
}

/// The version files of a Rust project whose manifests are `sources`: an
/// error where a manifest cannot be read or none declares a version.
pub open spec fn found_files(root: Seq<char>, sources: Seq<ManifestSourceView>) -> Result<
    Seq<VersionFileView>,
    ManifestErrorView,
> {
    match collected_files(sources) {
        Err(e) => Err(e),
        Ok(files) => if files.len() == 0 {
            Err(ManifestErrorView::NoneFound { root })
        } else {
            Ok(files)
        },
    }
}

/// What stands around a value that `toml_edit` gives no decoration of its
/// own: a blank before it and nothing behind it.
pub open spec fn plain_decoration() -> (Seq<char>, Seq<char>) {
    (" "@, Seq::empty())
}

/// The manifest `content` once its version field holds `version`: the field
/// of the workspace where `is_workspace` holds, else that of the package.
/// What stood around the old value stands around the new one. A manifest
/// without that field is an error.
pub open spec fn rewritten_manifest(
    path: Seq<char>,
    content: Seq<char>,
    version: Seq<char>,
    is_workspace: bool,
) -> Result<Seq<char>, ManifestErrorView> {
    let keys = version_keys(is_workspace);
    match toml_string_at(content, keys) {
        Err(message) => Err(ManifestErrorView::Parse { path, message }),
        Ok(None) => Err(ManifestErrorView::NoVersionField { path }),
        Ok(Some(_)) => match toml_around_at(content, keys) {
            Err(message) => Err(ManifestErrorView::Parse { path, message }),
            Ok(around) => {
                let (before, after) = match around {
                    Some(found) => found,
                    None => plain_decoration(),
                };
                match toml_with_string_at(content, keys, version, before, after) {
                    Ok(text) => Ok(text),
                    Err(message) => Err(ManifestErrorView::Parse { path, message }),
                }
            },
        },
    }
}

/// Whether a file of this name is a manifest.
pub fn is_manifest_name(file_name: &str) -> (r: bool)
    ensures
        r == (file_name@ == "Cargo.toml"@),
{
    same_text(file_name, "Cargo.toml")
}

/// Whether the search for manifests passes over a directory of this name:
/// the repository's own directory, the build output and the directories of
/// submodules are not entered.
pub fn skips_directory(name: &str, submodules: &Vec<String>) -> (r: bool)
    ensures
        r == (name@ == ".git"@ || name@ == "target"@ || exists|i: int|
            0 <= i < submodules@.len() && #[trigger] submodules@[i]@ == name@),
{
    if same_text(name, ".git") || same_text(name, "target") {
        return true;
    }
    let mut i: usize = 0;
    while i < submodules.len()
        invariant
            i <= submodules.len(),
            forall|j: int| 0 <= j < i ==> #[trigger] submodules@[j]@ != name@,
        decreases submodules.len() - i,
    {
        if same_text(submodules[i].as_str(), name) {
            return true;
        }
        i += 1;
    }
    false
}

/// The declaration that counts, given what was found for the package and
/// for the workspace.
pub fn choose_declaration(
    package: Result<Option<String>, String>,
    workspace: Result<Option<String>, String>,
) -> (r: Result<Option<Declaration>, String>)
    ensures
        result_view(r) == chosen_declaration(result_view(package), result_view(workspace)),
{
    match package {
        Err(message) => Err(message),
        Ok(Some(text)) => Ok(Some(Declaration { text, is_workspace: false })),
        Ok(None) => match workspace {
            Err(message) => Err(message),
            Ok(Some(text)) => Ok(Some(Declaration { text, is_workspace: true })),
            Ok(None) => Ok(None),
        },
    }
}

/// The version file that a declaration makes, given what its text was read
/// as.
pub fn version_file_from(path: &str, is_workspace: bool, version: Result<Version, String>) -> (r:
    Result<VersionFile, ManifestError>)
    ensures
        result_view(r) == declared_file(path@, is_workspace, result_view(version)),
{
    match version {
        Ok(version) => Ok(
            VersionFile::CargoToml { path: String::from_str(path), version, is_workspace },
        ),
        Err(message) => {
            if is_workspace {
                Err(ManifestError::BadWorkspaceVersion { path: String::from_str(path), message })
            } else {
                Err(ManifestError::BadVersion { path: String::from_str(path), message })
            }
        },
    }
}

/// Reads the version file that a manifest is, if it is one.
pub fn read_cargo_toml(path: &str, content: &str) -> (r: Result<Option<VersionFile>, ManifestError>)
    ensures
        result_view(r) == manifest_file(path@, content@),
{
    let package = declared_version_text(content, false);
    let workspace = declared_version_text(content, true);
    match choose_declaration(package, workspace) {
        Err(message) => Err(ManifestError::Parse { path: String::from_str(path), message }),
        Ok(None) => Ok(None),
        Ok(Some(found)) => {
            let version = Version::parse(found.text.as_str());
            match version_file_from(path, found.is_workspace, version) {
                Ok(file) => Ok(Some(file)),
                Err(e) => Err(e),
            }
        },
    }
}

/// The version files of the Rust project under `root` whose manifests are
/// `sources`.
pub fn find_cargo_tomls(root: &str, sources: &Vec<ManifestSource>) -> (r: Result<
    Vec<VersionFile>,
    ManifestError,
>)
    ensures
        result_view(r) == found_files(root@, sources.deep_view()),
{
    let mut returned: Vec<VersionFile> = Vec::new();
    let mut i: usize = 0;
    assert(sources.deep_view().take(0) =~= Seq::empty());
    assert(returned.deep_view() =~= Seq::empty());
    while i < sources.len()
        invariant
            i <= sources.len(),
            collected_files(sources.deep_view().take(i as int)) == Ok::<
                Seq<VersionFileView>,
                ManifestErrorView,
            >(returned.deep_view()),
        decreases sources.len() - i,
    {
        let ghost before = sources.deep_view().take(i as int);
        let ghost upto = sources.deep_view().take(i + 1);
        assert(upto.drop_last() =~= before);
        assert(upto.last() == sources@[i as int]@);
        let ghost files = returned.deep_view();
        if !sources[i].ignored {
            match read_cargo_toml(sources[i].path.as_str(), sources[i].content.as_str()) {
                Err(e) => {
                    assert(sources.deep_view().take(sources.len() as int) =~= sources.deep_view());
                    proof {
                        lemma_collected_error(sources.deep_view(), i + 1);
                    }
                    return Err(e);
                },
                Ok(Some(file)) => {
                    returned.push(file);
                    assert(returned.deep_view() =~= files.push(file@));
                },
                Ok(None) => {},
            }
        }
        i += 1;
    }
    assert(sources.deep_view().take(sources.len() as int) =~= sources.deep_view());
    if returned.len() == 0 {
        Err(ManifestError::NoneFound { root: String::from_str(root) })
    } else {
        Ok(returned)
    }
}

/// An error among the first `n` manifests is the error of them all.
pub proof fn lemma_collected_error(sources: Seq<ManifestSourceView>, n: int)
    requires
        0 <= n <= sources.len(),
        collected_files(sources.take(n)) is Err,
    ensures
        collected_files(sources) == collected_files(sources.take(n)),
    decreases sources.len() - n,
{
    if n < sources.len() {
        assert(sources.take(n + 1).drop_last() =~= sources.take(n));
        lemma_collected_error(sources, n + 1);
    } else {
        assert(sources.take(n) =~= sources);
    }
}

/// The manifest `content` once its version field holds `new_version`.
///
/// The field is the one that `is_workspace_file` names and no other, and
/// what stood around the old value is kept. In the result the text of the
/// new version is read from that field, and every other string of the
/// manifest is read as before.
pub fn write_cargo_toml_version(
    path: &str,
    content: &str,
    new_version: &Version,
    is_workspace_file: bool,
) -> (r: Result<String, ManifestError>)
    ensures
        result_view(r) == rewritten_manifest(
            path@,
            content@,
            version_text(new_version@),
            is_workspace_file,
        ),
        r matches Ok(text) ==> holds_string_at(
            text@,
            content@,
            version_keys(is_workspace_file),
            version_text(new_version@),
        ),
{
    let version = new_version.to_text();
    let keys = version_path(is_workspace_file);
    match toml_lookup(content, &keys) {
        Err(message) => Err(ManifestError::Parse { path: String::from_str(path), message }),
        Ok(None) => Err(ManifestError::NoVersionField { path: String::from_str(path) }),
        Ok(Some(_)) => match toml_around(content, &keys) {
            Err(message) => Err(ManifestError::Parse { path: String::from_str(path), message }),
            Ok(around) => {
                let (before, after) = match around {
                    Some(found) => found,
                    None => (String::from_str(" "), String::new()),
                };
                match toml_replace(
                    content,
                    &keys,
                    version.as_str(),
                    before.as_str(),
                    after.as_str(),
                ) {
                    Ok(text) => Ok(text),
                    Err(message) => Err(
                        ManifestError::Parse { path: String::from_str(path), message },
                    ),
                }
            },
        },
    }
}

/// The keys that lead to the version of the package are not those that lead
/// to the version of the workspace.
pub proof fn lemma_version_keys_apart()
    ensures
        version_keys(false) != version_keys(true),
{
    assert(version_keys(false).len() == 2);
    assert(version_keys(true).len() == 3);
}

/// Reading a rewritten manifest again.
///
/// Let a manifest be the version file `file`, and let `text` hold the string
/// `written` in the version field of that file and every other string as the
/// manifest held it, as a rewriting that went through leaves it. Where
/// `written` spells the version `version`, `text` is the same version file
/// with that version: of the package if `file` was, of the workspace if
/// `file` was.
pub proof fn lemma_rewritten_is_read_back(
    path: Seq<char>,
    content: Seq<char>,
    text: Seq<char>,
    file: VersionFileView,
    written: Seq<char>,
    version: VersionView,
)
    requires
        manifest_file(path, content) == Ok::<Option<VersionFileView>, ManifestErrorView>(Some(file)),
        holds_string_at(text, content, version_keys(file.is_workspace()), written),
        read_version(written) == Ok::<VersionView, Seq<char>>(version),
    ensures
        manifest_file(path, text) == Ok::<Option<VersionFileView>, ManifestErrorView>(
            Some(VersionFileView::CargoToml { path, version, is_workspace: file.is_workspace() }),
        ),
{
    lemma_version_keys_apart();
    if file.is_workspace() {
        assert(declared_version(content, false) == Ok::<Option<Seq<char>>, Seq<char>>(None));
        assert(toml_string_at(text, version_keys(false)) == toml_string_at(
            content,
            version_keys(false),
        ));
    }
}

} // verus!
