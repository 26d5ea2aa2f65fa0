//! Gathering the version files of the project, and the choice among them
//! where they declare more than one version.

use crate::flow::{
    failure_of, reply_failure, FlowError, FlowErrorView, Reply, ReplyView, Request, RequestView,
    Step, StepView,
};
use crate::pargit::{Pargit, PargitView, ProjectType};
use crate::project_types::rust::{find_cargo_tomls, found_files};
use crate::release::{must_choose, needs_choice};
use crate::version_file::{VersionFile, VersionFileView};
use crate::views::result_view;
use vstd::prelude::*;

verus! {

/// The path that leads from `base` to `path`, as `pathdiff` computes it, or
/// `None` where it finds none.
///
/// What separates the parts of a path and what makes a path absolute are the
/// rules of the platform that the library is built for. They are fixed for a
/// build, so the same texts give the same result; they are not the same on
/// every platform, and neither is what this name stands for.
pub uninterp spec fn relative_path_text(path: Seq<char>, base: Seq<char>) -> Option<Seq<char>>;

/// Computes the path from `base` to `path` with `pathdiff::diff_paths`.
///
/// Trusted: the result is named by [`relative_path_text`].
#[verifier::external_body]
fn relative_path(path: &str, base: &str) -> (r: Option<String>)
    ensures
        r.deep_view() == relative_path_text(path@, base@),
{
    pathdiff::diff_paths(path, base).map(|p| p.to_string_lossy().to_string())
}

/// The version files that were found, and the position of the one that was
/// chosen among them, if one was.
#[derive(Debug, PartialEq, Eq)]
pub struct Gathered {
    pub files: Vec<VersionFile>,
    pub chosen: Option<usize>,
}

/// What a [`Gathered`] stands for.
pub struct GatheredView {
    pub files: Seq<VersionFileView>,
    pub chosen: Option<int>,
}

impl View for Gathered {
    type V = GatheredView;

    open spec fn view(&self) -> GatheredView {
        GatheredView {
            files: self.files.deep_view(),
            chosen: match self.chosen {
                Some(i) => Some(i as int),
                None => None,
            },
        }
    }
}

impl DeepView for Gathered {
    type V = GatheredView;

    open spec fn deep_view(&self) -> GatheredView {
        self@
    }
}

/// A gathering that is under way, by what it waits for.
#[derive(Debug, PartialEq, Eq)]
pub enum GatherFlow {
    /// The manifests of the project. `choose` says whether a choice is asked
    /// for where the files declare more than one version.
    Reading { choose: bool },
    /// The choice among the files.
    Choosing { files: Vec<VersionFile> },
}

/// What a [`GatherFlow`] stands for.
pub enum GatherFlowView {
    Reading { choose: bool },
    Choosing { files: Seq<VersionFileView> },
}

impl View for GatherFlow {
    type V = GatherFlowView;

    open spec fn view(&self) -> GatherFlowView {
        match self {
            GatherFlow::Reading { choose } => GatherFlowView::Reading { choose: *choose },
            GatherFlow::Choosing { files } => GatherFlowView::Choosing { files: files.deep_view() },
        }
    }
}

impl DeepView for GatherFlow {
    type V = GatherFlowView;

    open spec fn deep_view(&self) -> GatherFlowView {
        self@
    }
}

/// The question that is put where a file has to be chosen.
pub open spec fn choice_prompt() -> Seq<char> {
    "Multiple Cargo.toml files found. Which one would you like to bump?"@
}

/// The files as they are offered for a choice: each by its path relative to
/// `base`, which goes by the path rules of the platform (see
/// [`relative_path_text`]). Where no relative path leads to a file, the path
/// of the first such file is the error.
pub open spec fn choice_labels(files: Seq<VersionFileView>, base: Seq<char>) -> Result<
    Seq<Seq<char>>,
    Seq<char>,
>
    decreases files.len(),
{
    if files.len() == 0 {
        Ok(Seq::empty())
    } else {
        match choice_labels(files.drop_last(), base) {
            Err(path) => Err(path),
            Ok(labels) => match relative_path_text(files.last().path(), base) {
                Some(label) => Ok(labels.push(label)),
                None => Err(files.last().path()),
            },
        }
    }
}

/// The files as they are offered for a choice.
pub fn selection_labels(files: &Vec<VersionFile>, base: &str) -> (r: Result<Vec<String>, String>)
    ensures
        result_view(r) == choice_labels(files.deep_view(), base@),
{
    let mut labels: Vec<String> = Vec::new();
    let mut i: usize = 0;
    assert(files.deep_view().take(0) =~= Seq::empty());
    assert(labels.deep_view() =~= Seq::<Seq<char>>::empty());
    while i < files.len()
        invariant
            i <= files.len(),
            choice_labels(files.deep_view().take(i as int), base@) == Ok::<
                Seq<Seq<char>>,
                Seq<char>,
            >(labels.deep_view()),
        decreases files.len() - i,
    {
        let ghost upto = files.deep_view().take(i + 1);
        let ghost before = labels.deep_view();
        assert(upto.drop_last() =~= files.deep_view().take(i as int));
        assert(upto.last() == files@[i as int]@);
        match relative_path(files[i].path(), base) {
            Some(label) => {
                labels.push(label);
                assert(labels.deep_view() =~= before.push(label@));
            },
            None => {
                proof {
                    lemma_labels_error(files.deep_view(), base@, i + 1);
                }
                return Err(String::from_str(files[i].path()));
            },
        }
        i += 1;
    }
    assert(files.deep_view().take(files.len() as int) =~= files.deep_view());
    Ok(labels)
}

/// A file among the first `n` to which no relative path leads is the error
/// of them all.
pub proof fn lemma_labels_error(files: Seq<VersionFileView>, base: Seq<char>, n: int)
    requires
        0 <= n <= files.len(),
        choice_labels(files.take(n), base) is Err,
    ensures
        choice_labels(files, base) == choice_labels(files.take(n), base),
    decreases files.len() - n,
{
    if n < files.len() {
        assert(files.take(n + 1).drop_last() =~= files.take(n));
        lemma_labels_error(files, base, n + 1);
    } else {
        assert(files.take(n) =~= files);
    }
}

impl GatherFlowView {
    /// What follows once the files are known: a choice where one is asked for
    /// and the files declare more than one version, else the end.
    pub open spec fn found(pargit: PargitView, files: Seq<VersionFileView>, choose: bool) -> StepView<
        GatherFlowView,
        GatheredView,
    > {
        if choose && needs_choice(files) {
            match choice_labels(files, pargit.project_path) {
                Ok(options) => StepView::Ask(
                    GatherFlowView::Choosing { files },
                    RequestView::Choose { prompt: choice_prompt(), options },
                ),
                Err(path) => StepView::Failed(FlowErrorView::NotUnderProject { path }),
            }
        } else {
            StepView::Done(GatheredView { files, chosen: None })
        }
    }

    /// The first step of a gathering: the manifests are read where the
    /// project is a Rust project; a project of no known kind has no version
    /// files.
    pub open spec fn begun(pargit: PargitView, choose: bool) -> StepView<
        GatherFlowView,
        GatheredView,
    > {
        match pargit.type_ {
            Some(ProjectType::Rust) => StepView::Ask(
                GatherFlowView::Reading { choose },
                RequestView::ReadManifests,
            ),
            None => StepView::Done(GatheredView { files: Seq::empty(), chosen: None }),
        }
    }

    /// The step after `reply`.
    pub open spec fn resumed(self, pargit: PargitView, reply: ReplyView) -> StepView<
        GatherFlowView,
        GatheredView,
    > {
        match self {
            GatherFlowView::Reading { choose } => match reply {
                ReplyView::Manifests(sources) => match found_files(pargit.repo_path, sources) {
                    Ok(files) => GatherFlowView::found(pargit, files, choose),
                    Err(error) => StepView::Failed(FlowErrorView::Manifest { error }),
                },
                _ => StepView::Failed(failure_of(reply)),
            },
            GatherFlowView::Choosing { files } => match reply {
                ReplyView::Index(i) => StepView::Done(GatheredView { files, chosen: Some(i) }),
                _ => StepView::Failed(failure_of(reply)),
            },
        }
    }
}

impl GatherFlow {
    /// Begins the gathering of the version files of the project.
    pub fn begin(pargit: &Pargit, choose: bool) -> (r: Step<GatherFlow, Gathered>)
        ensures
            r@ == GatherFlowView::begun(pargit@, choose),
    {
        match pargit.type_ {
            Some(ProjectType::Rust) => Step::Ask(
                GatherFlow::Reading { choose },
                Request::ReadManifests,
            ),
            None => {
                let files: Vec<VersionFile> = Vec::new();
                assert(files.deep_view() =~= Seq::empty());
                Step::Done(Gathered { files, chosen: None })
            },
        }
    }

    /// Goes on with the gathering after `reply`.
    pub fn resume(self, pargit: &Pargit, reply: Reply) -> (r: Step<GatherFlow, Gathered>)
        ensures
            r@ == self@.resumed(pargit@, reply@),
    {
        match self {
            GatherFlow::Reading { choose } => match reply {
                Reply::Manifests(sources) => match find_cargo_tomls(
                    pargit.repo_path.as_str(),
                    &sources,
                ) {
                    Ok(files) => {
                        if choose && must_choose(&files) {
                            match selection_labels(&files, pargit.project_path.as_str()) {
                                Ok(options) => Step::Ask(
                                    GatherFlow::Choosing { files },
                                    Request::Choose {
                                        prompt: String::from_str(
                                            "Multiple Cargo.toml files found. Which one would you like to bump?",
                                        ),
                                        options,
                                    },
                                ),
                                Err(path) => Step::Failed(FlowError::NotUnderProject { path }),
                            }
                        } else {
                            Step::Done(Gathered { files, chosen: None })
                        }
                    },
                    Err(error) => Step::Failed(FlowError::Manifest { error }),
                },
                _ => Step::Failed(reply_failure(reply)),
            },
            GatherFlow::Choosing { files } => match reply {
                Reply::Index(i) => Step::Done(Gathered { files, chosen: Some(i) }),
                _ => Step::Failed(reply_failure(reply)),
            },
        }
    }
}

} // verus!
