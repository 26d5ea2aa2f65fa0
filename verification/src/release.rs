//! Releases: which version comes next, under which tag, and which files
//! declare it.

use crate::commands::{BumpKind, VersionSpec, VersionSpecView};
use crate::config::{tag_name, Config, ConfigView};
use crate::text::strip_prefix;
use crate::version::{
    can_bump, lemma_precedence_flip, lemma_precedence_transitive, lemma_same_precedence,
    next_version_spec, read_version, precedence, same_version, version_text, Precedence, Version,
    VersionView,
};
use crate::version_file::{VersionFile, VersionFileView};
use crate::views::result_view;
use vstd::prelude::*;

verus! {

/// A release that is about to be made.
#[derive(Debug, PartialEq, Eq)]
pub struct Release {
    /// The name of the release: its version as text.
    pub name: String,
    /// The name of the tag that marks the release.
    pub tag: String,
    pub version: Version,
    /// The files that are to declare the version.
    pub version_files: Option<Vec<VersionFile>>,
}

/// What a [`Release`] stands for.
pub struct ReleaseView {
    pub name: Seq<char>,
    pub tag: Seq<char>,
    pub version: VersionView,
    pub version_files: Option<Seq<VersionFileView>>,
}

impl View for Release {
    type V = ReleaseView;

    open spec fn view(&self) -> ReleaseView {
        ReleaseView {
            name: self.name@,
            tag: self.tag@,
            version: self.version@,
            version_files: self.version_files.deep_view(),
        }
    }
}

impl DeepView for Release {
    type V = ReleaseView;

    open spec fn deep_view(&self) -> ReleaseView {
        self@
    }
}

impl ReleaseView {
    /// The release of `version`: named by the version's text and tagged with
    /// that text behind `prefix`, or behind the configured prefix where
    /// `prefix` is `None`.
    pub open spec fn of(
        config: ConfigView,
        version: VersionView,
        version_files: Option<Seq<VersionFileView>>,
        prefix: Option<Seq<char>>,
    ) -> ReleaseView {
        ReleaseView {
            name: version_text(version),
            tag: tag_name(config.tag_prefix, version_text(version), prefix),
            version,
            version_files,
        }
    }
}

impl Release {
    /// The release of `version`.
    pub fn version(
        config: &Config,
        version: Version,
        version_files: Option<Vec<VersionFile>>,
        prefix: Option<String>,
    ) -> (r: Release)
        ensures
            r@ == ReleaseView::of(config@, version@, version_files.deep_view(), prefix.deep_view()),
    {
        let name = version.to_text();
        let tag = config.get_tag_name(name.as_str(), prefix);
        Release { name, tag, version, version_files }
    }
}

/// Why no release could be resolved.
#[derive(Clone, Copy, Debug, PartialEq, Eq, Structural)]
pub enum ResolveError {
    /// The version files declare more than one version and none was chosen.
    NeedsChoice,
    /// There is no version file and no tag spells a version.
    CannotDeduce,
    /// The number to raise is already the largest.
    Overflow,
}

impl ResolveError {
    /// The failure in words.
    pub open spec fn text(self) -> Seq<char> {
        match self {
            ResolveError::NeedsChoice => "Could not get bumped Cargo.toml"@,
            ResolveError::CannotDeduce => "Could not deduce current version and no existing versioned files found"@,
            ResolveError::Overflow => "The version cannot grow further"@,
        }
    }

    /// The failure in words.
    pub fn to_text(&self) -> (r: String)
        ensures
            r@ == self.text(),
    {
        match self {
            ResolveError::NeedsChoice => String::from_str("Could not get bumped Cargo.toml"),
            ResolveError::CannotDeduce => String::from_str(
                "Could not deduce current version and no existing versioned files found",
            ),
            ResolveError::Overflow => String::from_str("The version cannot grow further"),
        }
    }
}

impl View for ResolveError {
    type V = ResolveError;

    open spec fn view(&self) -> ResolveError {
        *self
    }
}

impl DeepView for ResolveError {
    type V = ResolveError;

    open spec fn deep_view(&self) -> ResolveError {
        *self
    }
}

/// A version that a tag spells, with the prefix that stands before it.
#[derive(Debug, PartialEq, Eq)]
pub struct TaggedVersion {
    pub version: Version,
    pub prefix: String,
}

/// What a [`TaggedVersion`] stands for.
pub struct TaggedVersionView {
    pub version: VersionView,
    pub prefix: Seq<char>,
}

impl View for TaggedVersion {
    type V = TaggedVersionView;

    open spec fn view(&self) -> TaggedVersionView {
        TaggedVersionView { version: self.version@, prefix: self.prefix@ }
    }
}

impl DeepView for TaggedVersion {
    type V = TaggedVersionView;

    open spec fn deep_view(&self) -> TaggedVersionView {
        self@
    }
}

/// The version that `tag` spells behind `prefix`, where it begins with it.
pub open spec fn version_under(prefix: Seq<char>, tag: Seq<char>) -> Option<VersionView> {
    if prefix.is_prefix_of(tag) {
        match read_version(tag.skip(prefix.len() as int)) {
            Ok(v) => Some(v),
            Err(_) => None,
        }
    } else {
        None
    }
}

/// What `tag` spells behind `prefix`, with the prefix.
pub open spec fn reading_under(prefix: Seq<char>, tag: Seq<char>) -> Option<TaggedVersionView> {
    match version_under(prefix, tag) {
        Some(version) => Some(TaggedVersionView { version, prefix }),
        None => None,
    }
}

/// The prefixes under which a tag can spell a version: the configured one,
/// `v`, and none.
pub open spec fn recognized_prefixes(configured: Seq<char>) -> Seq<Seq<char>> {
    seq![configured, "v"@, Seq::empty()]
}

/// What the tag at `tag` spells under the prefix at `prefix`.
pub open spec fn spelled(configured: Seq<char>, tags: Seq<Seq<char>>, tag: int, prefix: int) -> Option<
    TaggedVersionView,
> {
    reading_under(recognized_prefixes(configured)[prefix], tags[tag])
}

/// What the tags spell: for each tag in turn what it spells under each of the
/// recognized prefixes. A tag that spells one version under one prefix and
/// another under another counts with both.
pub open spec fn tag_candidates(configured: Seq<char>, tags: Seq<Seq<char>>) -> Seq<
    Option<TaggedVersionView>,
> {
    Seq::new(3 * tags.len(), |i: int| spelled(configured, tags, i / 3, i % 3))
}

/// Where the latest version stands among the candidates: the last of those
/// that no other exceeds in precedence.
pub open spec fn latest_of(candidates: Seq<Option<TaggedVersionView>>) -> Option<int>
    decreases candidates.len(),
{
    if candidates.len() == 0 {
        None
    } else {
        let before = latest_of(candidates.drop_last());
        match candidates.last() {
            None => before,
            Some(c) => match before {
                None => Some(candidates.len() - 1),
                Some(k) => if precedence(c.version, candidates[k]->0.version) == Precedence::Lower {
                    Some(k)
                } else {
                    Some(candidates.len() - 1)
                },
            },
        }
    }
}

/// The latest version that the tags spell, with its prefix.
pub open spec fn latest_tagged(configured: Seq<char>, tags: Seq<Seq<char>>) -> Option<TaggedVersionView> {
    match latest_of(tag_candidates(configured, tags)) {
        None => None,
        Some(k) => tag_candidates(configured, tags)[k],
    }
}

/// The latest candidate is a candidate that none exceeds and that every later
/// one is below; there is none only where no tag spells a version.
pub proof fn lemma_latest_is_maximum(candidates: Seq<Option<TaggedVersionView>>)
    ensures
        latest_of(candidates) is None <==> forall|j: int|
            0 <= j < candidates.len() ==> candidates[j] is None,
        latest_of(candidates) matches Some(k) ==> {
            &&& 0 <= k < candidates.len()
            &&& candidates[k] is Some
            &&& forall|j: int|
                0 <= j < candidates.len() && candidates[j] is Some ==> precedence(
                    candidates[j]->0.version,
                    candidates[k]->0.version,
                ) != Precedence::Higher
            &&& forall|j: int|
                k < j < candidates.len() && candidates[j] is Some ==> precedence(
                    candidates[j]->0.version,
                    candidates[k]->0.version,
                ) == Precedence::Lower
        },
    decreases candidates.len(),
{
    if candidates.len() > 0 {
        let front = candidates.drop_last();
        let n = candidates.len() - 1;
        lemma_latest_is_maximum(front);
        assert(forall|j: int| 0 <= j < n ==> front[j] == candidates[j]);
        match candidates.last() {
            None => {},
            Some(c) => match latest_of(front) {
                None => {
                    lemma_same_precedence(c.version, c.version);
                },
                Some(k) => {
                    if precedence(c.version, candidates[k]->0.version) != Precedence::Lower {
                        lemma_precedence_flip(c.version, candidates[k]->0.version);
                        lemma_same_precedence(c.version, c.version);
                        assert forall|j: int|
                            0 <= j < candidates.len() && candidates[j] is Some implies precedence(
                            candidates[j]->0.version,
                            c.version,
                        ) != Precedence::Higher by {
                            if j < n {
                                lemma_precedence_transitive(
                                    candidates[j]->0.version,
                                    candidates[k]->0.version,
                                    c.version,
                                );
                            }
                        }
                    }
                },
            },
        }
    }
}

/// The latest tagged version is spelled by one of the tags under one of the
/// recognized prefixes; nothing that a tag spells under any of them is above
/// it; and there is none only where no tag spells a version.
pub proof fn lemma_latest_tagged(configured: Seq<char>, tags: Seq<Seq<char>>)
    ensures
        latest_tagged(configured, tags) is None <==> forall|j: int, m: int|
            0 <= j < tags.len() && 0 <= m < 3 ==> #[trigger] spelled(configured, tags, j, m) is None,
        latest_tagged(configured, tags) matches Some(latest) ==> {
            &&& exists|k: int, m: int|
                0 <= k < tags.len() && 0 <= m < 3 && #[trigger] spelled(configured, tags, k, m)
                    == Some(latest)
            &&& forall|j: int, m: int|
                0 <= j < tags.len() && 0 <= m < 3 && (#[trigger] spelled(
                    configured,
                    tags,
                    j,
                    m,
                )) is Some ==> precedence(
                    spelled(configured, tags, j, m)->0.version,
                    latest.version,
                ) != Precedence::Higher
        },
{
    let candidates = tag_candidates(configured, tags);
    lemma_latest_is_maximum(candidates);
    assert forall|j: int, m: int| 0 <= j < tags.len() && 0 <= m < 3 implies #[trigger] spelled(
        configured,
        tags,
        j,
        m,
    ) == candidates[3 * j + m] by {
        assert((3 * j + m) / 3 == j && (3 * j + m) % 3 == m);
    }
    match latest_of(candidates) {
        Some(k) => {
            assert(candidates[k] == spelled(configured, tags, k / 3, k % 3));
            assert(0 <= k / 3 < tags.len() && 0 <= k % 3 < 3);
        },
        None => {
            assert forall|j: int, m: int| 0 <= j < tags.len() && 0 <= m < 3 implies (
            #[trigger] spelled(configured, tags, j, m)) is None by {
                assert(candidates[3 * j + m] is None);
            }
        },
    }
    if forall|j: int, m: int|
        0 <= j < tags.len() && 0 <= m < 3 ==> (#[trigger] spelled(configured, tags, j, m)) is None {
        assert forall|i: int| 0 <= i < candidates.len() implies candidates[i] is None by {
            assert(spelled(configured, tags, i / 3, i % 3) is None);
        }
    }
}

impl Clone for TaggedVersion {
    fn clone(&self) -> (r: Self)
        ensures
            r@ == self@,
    {
        TaggedVersion { version: self.version.clone(), prefix: self.prefix.clone() }
    }
}

/// Reads what a tag spells behind a prefix.
pub fn read_tag_under(prefix: &str, tag: &str) -> (r: Option<TaggedVersion>)
    ensures
        r.deep_view() == reading_under(prefix@, tag@),
{
    match strip_prefix(tag, prefix) {
        Some(rest) => match Version::parse(rest.as_str()) {
            Ok(version) => Some(TaggedVersion { version, prefix: String::from_str(prefix) }),
            Err(_) => None,
        },
        None => None,
    }
}

/// Where the latest version stands among the candidates: the last of those
/// that no other exceeds in precedence, or `None` where there is none.
pub fn latest_candidate(candidates: &Vec<Option<TaggedVersion>>) -> (r: Option<usize>)
    ensures
        chosen_view(r) == latest_of(candidates.deep_view()),
        r matches Some(k) ==> k < candidates.len() && candidates@[k as int] is Some,
{
    let mut at: Option<usize> = None;
    let mut i: usize = 0;
    let ghost all = candidates.deep_view();
    assert(all.take(0) =~= Seq::empty());
    while i < candidates.len()
        invariant
            i <= candidates.len(),
            all == candidates.deep_view(),
            chosen_view(at) == latest_of(all.take(i as int)),
            at matches Some(k) ==> k < i && candidates@[k as int] is Some,
        decreases candidates.len() - i,
    {
        assert(all.take(i + 1).drop_last() =~= all.take(i as int));
        assert(all.take(i + 1).last() == all[i as int]);
        assert(all[i as int] == candidates@[i as int].deep_view());
        match &candidates[i] {
            None => {},
            Some(found) => {
                let replace = match at {
                    None => true,
                    Some(k) => {
                        assert(all.take(i + 1)[k as int] == all[k as int]);
                        assert(all[k as int] == candidates@[k as int].deep_view());
                        match &candidates[k] {
                            Some(best) => match found.version.compare(&best.version) {
                                Precedence::Lower => false,
                                _ => true,
                            },
                            None => true,
                        }
                    },
                };
                if replace {
                    at = Some(i);
                }
            },
        }
        i += 1;
    }
    assert(all.take(candidates.len() as int) =~= all);
    at
}

/// The latest version that the tags spell, with the prefix under which it
/// stands, or `None` where no tag spells a version.
pub fn try_get_latest_tagged_version(configured: &str, tags: &Vec<String>) -> (r: Option<
    TaggedVersion,
>)
    ensures
        r.deep_view() == latest_tagged(configured@, tags.deep_view()),
{
    proof {
        reveal_strlit("");
    }
    assert(""@ =~= Seq::<char>::empty());
    let ghost all = tag_candidates(configured@, tags.deep_view());
    let mut candidates: Vec<Option<TaggedVersion>> = Vec::new();
    let mut i: usize = 0;
    assert(candidates.deep_view() =~= all.take(0));
    while i < tags.len()
        invariant
            i <= tags.len(),
            all == tag_candidates(configured@, tags.deep_view()),
            candidates.len() == 3 * i,
            candidates.deep_view() == all.take(3 * i),
            ""@ == Seq::<char>::empty(),
        decreases tags.len() - i,
    {
        let ghost before = candidates.deep_view();
        let tag = tags[i].as_str();
        assert(tags.deep_view()[i as int] == tag@);
        let first = read_tag_under(configured, tag);
        let second = read_tag_under("v", tag);
        let third = read_tag_under("", tag);
        proof {
            assert((3 * i) / 3 == i && (3 * i) % 3 == 0);
            assert((3 * i + 1) / 3 == i && (3 * i + 1) % 3 == 1);
            assert((3 * i + 2) / 3 == i && (3 * i + 2) % 3 == 2);
            assert(all[3 * i] == first.deep_view());
            assert(all[3 * i + 1] == second.deep_view());
            assert(all[3 * i + 2] == third.deep_view());
        }
        candidates.push(first);
        candidates.push(second);
        candidates.push(third);
        assert(candidates.deep_view() =~= all.take(3 * (i + 1)));
        i += 1;
    }
    assert(all.take(3 * tags.len()) =~= all);
    match latest_candidate(&candidates) {
        None => None,
        Some(k) => {
            assert(all[k as int] == candidates@[k as int].deep_view());
            match &candidates[k] {
                Some(found) => Some(found.clone()),
                None => None,
            }
        },
    }
}

/// Whether the files are at least one and all declare the same version, build
/// metadata apart.
pub open spec fn share_one_version(files: Seq<VersionFileView>) -> bool {
    files.len() > 0 && forall|i: int|
        0 <= i < files.len() ==> same_version(#[trigger] files[i].version(), files[0].version())
}

/// Whether one of the files has to be chosen before a version can be bumped:
/// they are several and declare more than one version.
pub open spec fn needs_choice(files: Seq<VersionFileView>) -> bool {
    files.len() > 1 && !share_one_version(files)
}

/// The files to bump: all of them where they share one version; the chosen
/// one where they do not; none where there is none.
pub open spec fn files_to_bump(files: Seq<VersionFileView>, chosen: Option<int>) -> Result<
    Seq<VersionFileView>,
    ResolveError,
> {
    if needs_choice(files) {
        match chosen {
            Some(i) => if 0 <= i < files.len() {
                Ok(seq![files[i]])
            } else {
                Err(ResolveError::NeedsChoice)
            },
            None => Err(ResolveError::NeedsChoice),
        }
    } else {
        Ok(files)
    }
}

/// The release that `spec` asks for.
///
/// A given version is taken as it is, for all the files. A bump starts from
/// the version of the files to bump; where there is no file, from the latest
/// version that the tags spell, and the new tag keeps that tag's prefix.
pub open spec fn resolved(
    config: ConfigView,
    spec: VersionSpecView,
    files: Seq<VersionFileView>,
    chosen: Option<int>,
    tags: Seq<Seq<char>>,
) -> Result<ReleaseView, ResolveError> {
    match spec {
        VersionSpecView::Exact(version) => Ok(ReleaseView::of(config, version, Some(files), None)),
        VersionSpecView::Bump(kind) => match files_to_bump(files, chosen) {
            Err(e) => Err(e),
            Ok(selected) => if selected.len() == 0 {
                match latest_tagged(config.tag_prefix, tags) {
                    None => Err(ResolveError::CannotDeduce),
                    Some(TaggedVersionView { version: current, prefix }) => if can_bump(current, kind) {
                        Ok(
                            ReleaseView::of(
                                config,
                                next_version_spec(current, kind),
                                Some(selected),
                                Some(prefix),
                            ),
                        )
                    } else {
                        Err(ResolveError::Overflow)
                    },
                }
            } else if can_bump(selected[0].version(), kind) {
                Ok(
                    ReleaseView::of(
                        config,
                        next_version_spec(selected[0].version(), kind),
                        Some(selected),
                        None,
                    ),
                )
            } else {
                Err(ResolveError::Overflow)
            },
        },
    }
}

/// The position that was chosen, as a number of the model.
pub open spec fn chosen_view(chosen: Option<usize>) -> Option<int> {
    match chosen {
        Some(i) => Some(i as int),
        None => None,
    }
}

/// Whether the files are at least one and all declare the same version.
pub fn all_same_version(files: &Vec<VersionFile>) -> (r: bool)
    ensures
        r == share_one_version(files.deep_view()),
{
    if files.len() == 0 {
        return false;
    }
    let first = files[0].version();
    let mut i: usize = 0;
    while i < files.len()
        invariant
            i <= files.len(),
            files.len() > 0,
            first@ == files@[0]@.version(),
            forall|j: int|
                0 <= j < i ==> same_version(
                    #[trigger] files.deep_view()[j].version(),
                    files.deep_view()[0].version(),
                ),
        decreases files.len() - i,
    {
        let v = files[i].version();
        if !v.same_as(&first) {
            assert(!same_version(files.deep_view()[i as int].version(), files.deep_view()[0].version()));
            return false;
        }
        i += 1;
    }
    true
}

/// Whether one of the files has to be chosen before a version can be bumped.
pub fn must_choose(files: &Vec<VersionFile>) -> (r: bool)
    ensures
        r == needs_choice(files.deep_view()),
{
    files.len() > 1 && !all_same_version(files)
}

/// The files to bump among `files`, where `chosen` is the position of the
/// file that was chosen, if one was.
pub fn get_version_files_to_bump(files: Vec<VersionFile>, chosen: Option<usize>) -> (r: Result<
    Vec<VersionFile>,
    ResolveError,
>)
    ensures
        result_view(r) == files_to_bump(files.deep_view(), chosen_view(chosen)),
{
    if must_choose(&files) {
        match chosen {
            Some(i) => {
                if i < files.len() {
                    let mut one: Vec<VersionFile> = Vec::new();
                    one.push(files[i].clone());
                    assert(one.deep_view() =~= seq![files.deep_view()[i as int]]);
                    Ok(one)
                } else {
                    Err(ResolveError::NeedsChoice)
                }
            },
            None => Err(ResolveError::NeedsChoice),
        }
    } else {
        Ok(files)
    }
}

/// Resolves the release that `spec` asks for from the version files that were
/// found, the position of the file that was chosen among them, if one was,
/// and the tags of the repository.
pub fn resolve_release(
    config: &Config,
    spec: VersionSpec,
    files: Vec<VersionFile>,
    chosen: Option<usize>,
    tags: &Vec<String>,
) -> (r: Result<Release, ResolveError>)
    ensures
        result_view(r) == resolved(
            config@,
            spec@,
            files.deep_view(),
            chosen_view(chosen),
            tags.deep_view(),
        ),
{
    match spec {
        VersionSpec::Exact(version) => Ok(Release::version(config, version, Some(files), None)),
        VersionSpec::Bump(kind) => match get_version_files_to_bump(files, chosen) {
            Err(e) => Err(e),
            Ok(selected) => {
                if selected.len() == 0 {
                    match try_get_latest_tagged_version(config.tag_prefix.as_str(), tags) {
                        None => Err(ResolveError::CannotDeduce),
                        Some(TaggedVersion { version: current, prefix }) => match crate::version::checked_next_version(
                            &current,
                            kind,
                        ) {
                            Some(next) => Ok(
                                Release::version(config, next, Some(selected), Some(prefix)),
                            ),
                            None => Err(ResolveError::Overflow),
                        },
                    }
                } else {
                    let current = selected[0].version();
                    match crate::version::checked_next_version(&current, kind) {
                        Some(next) => Ok(Release::version(config, next, Some(selected), None)),
                        None => Err(ResolveError::Overflow),
                    }
                }
            },
        },
    }
}

/// Files that share one version `v` are all selected by a bump, and the
/// release gets the version that follows `v`.
pub proof fn lemma_shared_version_bump(
    config: ConfigView,
    files: Seq<VersionFileView>,
    v: VersionView,
    kind: BumpKind,
    chosen: Option<int>,
    tags: Seq<Seq<char>>,
)
    requires
        files.len() > 0,
        forall|i: int| 0 <= i < files.len() ==> same_version(#[trigger] files[i].version(), v),
        can_bump(v, kind),
    ensures
        resolved(config, VersionSpecView::Bump(kind), files, chosen, tags) == Ok::<
            ReleaseView,
            ResolveError,
        >(ReleaseView::of(config, next_version_spec(v, kind), Some(files), None)),
{
    assert(same_version(files[0].version(), v));
    assert(share_one_version(files));
}

/// Files that declare several versions need a choice; once one is chosen, a
/// bump resolves as if the chosen file were the only one.
pub proof fn lemma_choice_isolates(
    config: ConfigView,
    files: Seq<VersionFileView>,
    kind: BumpKind,
    i: int,
    other: Option<int>,
    tags: Seq<Seq<char>>,
)
    requires
        needs_choice(files),
        0 <= i < files.len(),
    ensures
        resolved(config, VersionSpecView::Bump(kind), files, None, tags) == Err::<
            ReleaseView,
            ResolveError,
        >(ResolveError::NeedsChoice),
        resolved(config, VersionSpecView::Bump(kind), files, Some(i), tags) == resolved(
            config,
            VersionSpecView::Bump(kind),
            seq![files[i]],
            other,
            tags,
        ),
{
    let one = seq![files[i]];
    assert(share_one_version(one));
}

} // verus!
