//! The kinds of flow branch, their names and their start points.

use crate::config::{Config, ConfigView};
use crate::text::{joined, strip_prefix};
use vstd::prelude::*;

verus! {

/// The kind of work that a flow branch holds.
#[derive(Clone, Copy, Debug, PartialEq, Eq, Structural)]
pub enum ObjectKind {
    Release,
    Hotfix,
    Feature,
    Bugfix,
}

impl ObjectKind {
    /// The lower-case name of the kind.
    pub open spec fn name_text(self) -> Seq<char> {
        match self {
            ObjectKind::Release => "release"@,
            ObjectKind::Hotfix => "hotfix"@,
            ObjectKind::Feature => "feature"@,
            ObjectKind::Bugfix => "bugfix"@,
        }
    }

    /// What every branch of the kind begins with: the kind's name and a slash.
    pub open spec fn prefix_text(self) -> Seq<char> {
        self.name_text() + seq!['/']
    }

    /// The name of the branch that holds the object `name` of the kind.
    pub open spec fn branch_text(self, name: Seq<char>) -> Seq<char> {
        self.prefix_text() + name
    }

    /// The object that the branch `branch` holds, where it is of the kind.
    pub open spec fn object_text(self, branch: Seq<char>) -> Option<Seq<char>> {
        if self.prefix_text().is_prefix_of(branch) {
            Some(branch.skip(self.prefix_text().len() as int))
        } else {
            None
        }
    }

    /// Where a branch of the kind starts: at `from_ref` where one is given,
    /// else at the main branch for a hotfix and at the develop branch for
    /// the other kinds.
    pub open spec fn start_point_text(self, config: ConfigView, from_ref: Option<Seq<char>>) -> Seq<
        char,
    > {
        match from_ref {
            Some(r) => r,
            None => match self {
                ObjectKind::Hotfix => config.main_branch_name,
                _ => config.develop_branch_name,
            },
        }
    }

    /// The lower-case name of the kind.
    pub fn name(&self) -> (r: &'static str)
        ensures
            r@ == self.name_text(),
    {
        match self {
            ObjectKind::Release => "release",
            ObjectKind::Hotfix => "hotfix",
            ObjectKind::Feature => "feature",
            ObjectKind::Bugfix => "bugfix",
        }
    }

    /// The lower-case name of the kind, as an owned text.
    pub fn to_text(&self) -> (r: String)
        ensures
            r@ == self.name_text(),
    {
        String::from_str(self.name())
    }

    /// What every branch of the kind begins with.
    pub fn prefix(&self) -> (r: String)
        ensures
            r@ == self.prefix_text(),
    {
        proof {
            reveal_strlit("/");
        }
        let r = joined(self.name(), "/");
        assert("/"@ =~= seq!['/']);
        r
    }

    /// The name of the branch that holds the object `name` of the kind.
    pub fn branch_name(&self, name: &str) -> (r: String)
        ensures
            r@ == self.branch_text(name@),
    {
        let prefix = self.prefix();
        joined(prefix.as_str(), name)
    }

    /// The object that the branch `branch` holds, or `None` where the branch
    /// is not of the kind.
    pub fn object_name(&self, branch: &str) -> (r: Option<String>)
        ensures
            r.deep_view() == self.object_text(branch@),
    {
        let prefix = self.prefix();
        strip_prefix(branch, prefix.as_str())
    }

    /// The kind of the branch `branch`, or `None` where it is no flow branch.
    pub fn of_branch(branch: &str) -> (r: Option<ObjectKind>)
        ensures
            r matches Some(kind) ==> kind.prefix_text().is_prefix_of(branch@),
            r is None ==> forall|kind: ObjectKind| !kind.prefix_text().is_prefix_of(branch@),
    {
        if ObjectKind::Release.object_name(branch).is_some() {
            Some(ObjectKind::Release)
        } else if ObjectKind::Hotfix.object_name(branch).is_some() {
            Some(ObjectKind::Hotfix)
        } else if ObjectKind::Feature.object_name(branch).is_some() {
            Some(ObjectKind::Feature)
        } else if ObjectKind::Bugfix.object_name(branch).is_some() {
            Some(ObjectKind::Bugfix)
        } else {
            None
        }
    }

    /// Where a branch of the kind starts.
    pub fn get_start_point(&self, config: &Config, from_ref: Option<&str>) -> (r: String)
        ensures
            r@ == self.start_point_text(
                config@,
                match from_ref {
                    Some(s) => Some(s@),
                    None => None,
                },
            ),
    {
        match from_ref {
            Some(r) => String::from_str(r),
            None => match self {
                ObjectKind::Hotfix => config.main_branch_name.clone(),
                _ => config.develop_branch_name.clone(),
            },
        }
    }
}

/// The first letter of each kind's name, and that no name is empty.
pub proof fn lemma_kind_initials()
    ensures
        ObjectKind::Release.name_text().len() > 0 && ObjectKind::Release.name_text()[0] == 'r',
        ObjectKind::Hotfix.name_text().len() > 0 && ObjectKind::Hotfix.name_text()[0] == 'h',
        ObjectKind::Feature.name_text().len() > 0 && ObjectKind::Feature.name_text()[0] == 'f',
        ObjectKind::Bugfix.name_text().len() > 0 && ObjectKind::Bugfix.name_text()[0] == 'b',
{
    reveal_strlit("release");
    reveal_strlit("hotfix");
    reveal_strlit("feature");
    reveal_strlit("bugfix");
}

/// No two kinds share a prefix: a branch of one kind is never the branch of
/// another, whatever the objects are called.
pub proof fn lemma_kinds_apart(a: ObjectKind, b: ObjectKind, x: Seq<char>, y: Seq<char>)
    requires
        a != b,
    ensures
        a.branch_text(x) != b.branch_text(y),
        !a.prefix_text().is_prefix_of(b.branch_text(y)),
{
    lemma_kind_initials();
    assert(a.branch_text(x)[0] == a.name_text()[0]);
    assert(b.branch_text(y)[0] == b.name_text()[0]);
    if a.prefix_text().is_prefix_of(b.branch_text(y)) {
        assert(b.branch_text(y).subrange(0, a.prefix_text().len() as int)[0] == a.prefix_text()[0]);
    }
}

/// A branch name gives back the object that it was made for.
pub proof fn lemma_branch_round_trip(kind: ObjectKind, name: Seq<char>)
    ensures
        kind.object_text(kind.branch_text(name)) == Some(name),
{
    let p = kind.prefix_text();
    assert((p + name).subrange(0, p.len() as int) =~= p);
    assert((p + name).skip(p.len() as int) =~= name);
}

/// A branch that is of a kind is the branch of the object that it holds.
pub proof fn lemma_object_round_trip(kind: ObjectKind, branch: Seq<char>)
    requires
        kind.object_text(branch) is Some,
    ensures
        kind.branch_text(kind.object_text(branch)->0) == branch,
{
    let p = kind.prefix_text();
    assert(p + branch.skip(p.len() as int) =~= branch);
}

} // verus!
