use std::collections::{BTreeMap, BTreeSet};

use pargit::cleanup::{flow_branch, plan_cleanup, BranchState};
use pargit::commands::{
    BumpKind, Command, FlowCommand, ReleaseCommand, ReleaseOptions, VersionCommand, VersionSpec,
};
use pargit::config::Config;
use pargit::dispatch::{entry_point, Operation};
use pargit::exit_stack::ExitStackItem;
use pargit::flow::gather::selection_labels;
use pargit::flow::release_finish::temp_branch_name;
use pargit::flow::unwind::{Compensation, UnwindFlow};
use pargit::flow::{FlowError, Reply, Request, Step};
use pargit::object_kind::ObjectKind;
use pargit::pargit::Pargit;
use pargit::project_types::rust::{ManifestError, ManifestSource};
use pargit::release::ResolveError;
use pargit::version::Version;
use pargit::version_file::VersionFile;

/// A repository in memory that answers requests as a well-behaved one would.
struct Repo {
    branches: BTreeSet<String>,
    tags: BTreeSet<String>,
    current: String,
    upstreams: BTreeMap<String, String>,
    files: BTreeMap<String, String>,
    dirty: bool,
    behind: BTreeSet<String>,
    pull_helps: bool,
    build_fails: bool,
    build_dirties: bool,
    conflicts_with: Option<String>,
    rejects_push_to: Option<String>,
    fails_push_of_tags: bool,
    choice: usize,
    confirms: bool,
    pushed: Vec<(String, String)>,
    commits: Vec<String>,
    log: Vec<Request>,
}

fn set(names: &[&str]) -> BTreeSet<String> {
    names.iter().map(|s| s.to_string()).collect()
}

impl Repo {
    fn new(branches: &[&str], current: &str) -> Repo {
        Repo {
            branches: set(branches),
            tags: BTreeSet::new(),
            current: current.to_string(),
            upstreams: BTreeMap::new(),
            files: BTreeMap::new(),
            dirty: false,
            behind: BTreeSet::new(),
            pull_helps: true,
            build_fails: false,
            build_dirties: false,
            conflicts_with: None,
            rejects_push_to: None,
            fails_push_of_tags: false,
            choice: 0,
            confirms: true,
            pushed: Vec::new(),
            commits: Vec::new(),
            log: Vec::new(),
        }
    }

    fn failed(message: &str) -> Reply {
        Reply::Failed { message: message.to_string() }
    }

    fn answer(&mut self, request: &Request) -> Reply {
        match request {
            Request::CurrentBranch => Reply::Text(self.current.clone()),
            Request::FindBranch { name } => {
                if self.branches.contains(name) {
                    Reply::Done
                } else {
                    Reply::Missing
                }
            }
            Request::Upstream { branch } => match self.upstreams.get(branch) {
                Some(u) => Reply::Text(u.clone()),
                None => Reply::Missing,
            },
            Request::CreateBranch { name, .. } => {
                if self.branches.insert(name.clone()) {
                    Reply::Done
                } else {
                    Repo::failed("a branch of that name exists")
                }
            }
            Request::TrackRemote { branch } => {
                self.branches.insert(branch.clone());
                Reply::Done
            }
            Request::SwitchTo { branch } => {
                if self.branches.contains(branch) {
                    self.current = branch.clone();
                    Reply::Done
                } else {
                    Repo::failed("no such branch")
                }
            }
            Request::Merge { branch, .. } => {
                if self.conflicts_with.as_ref() == Some(branch) {
                    Repo::failed("CONFLICT (content)")
                } else {
                    Reply::Done
                }
            }
            Request::AbortMerge => Reply::Done,
            Request::DeleteBranch { name } => {
                if *name != self.current && self.branches.remove(name) {
                    Reply::Done
                } else {
                    Repo::failed("cannot delete branch")
                }
            }
            Request::DeleteRemoteBranch { remote, branch } => {
                let upstream = format!("{}/{}", remote, branch);
                self.upstreams.retain(|_, u| *u != upstream);
                Reply::Done
            }
            Request::HasTag { name } => Reply::Flag(self.tags.contains(name)),
            Request::ListTags => Reply::Texts(self.tags.iter().cloned().collect()),
            Request::CreateTag { name } => {
                if self.tags.insert(name.clone()) {
                    Reply::Done
                } else {
                    Repo::failed("tag already exists")
                }
            }
            Request::DeleteTag { name } => {
                if self.tags.remove(name) {
                    Reply::Done
                } else {
                    Repo::failed("tag not found")
                }
            }
            Request::IsDirty => Reply::Flag(self.dirty),
            Request::CommitAll { message } => {
                self.dirty = false;
                self.commits.push(message.clone());
                Reply::Done
            }
            Request::Push { source, target, track } => {
                if self.rejects_push_to.as_ref() == Some(target) {
                    Repo::failed("! [rejected] (fetch first)")
                } else {
                    self.pushed.push((source.clone(), target.clone()));
                    if *track {
                        self.upstreams.insert(source.clone(), format!("origin/{}", target));
                    }
                    Reply::Text("remote: Resolving deltas\nTo origin\nremote: Done\n".to_string())
                }
            }
            Request::PushTags => {
                if self.fails_push_of_tags {
                    Repo::failed("connection lost")
                } else {
                    Reply::Done
                }
            }
            Request::IsUpToDate { branch } => Reply::Flag(!self.behind.contains(branch)),
            Request::Pull { branch, .. } => {
                if self.pull_helps {
                    self.behind.remove(branch);
                }
                Reply::Done
            }
            Request::Verify { .. } => {
                if self.build_fails {
                    Repo::failed("error[E0308]: mismatched types")
                } else {
                    if self.build_dirties {
                        self.dirty = true;
                    }
                    Reply::Done
                }
            }
            Request::ReadManifests => Reply::Manifests(
                self.files
                    .iter()
                    .filter(|(path, _)| path.ends_with("Cargo.toml"))
                    .map(|(path, content)| ManifestSource {
                        path: path.clone(),
                        content: content.clone(),
                        ignored: false,
                    })
                    .collect(),
            ),
            Request::Choose { .. } => Reply::Index(self.choice),
            Request::ReadFile { path } => match self.files.get(path) {
                Some(content) => Reply::Text(content.clone()),
                None => Repo::failed("no such file"),
            },
            Request::WriteFile { path, content } => {
                self.files.insert(path.clone(), content.clone());
                self.dirty = true;
                Reply::Done
            }
            Request::Confirm { .. } => Reply::Flag(self.confirms),
        }
    }
}

fn drive<F, T>(
    repo: &mut Repo,
    mut step: Step<F, T>,
    resume: impl Fn(F, Reply) -> Step<F, T>,
) -> Step<F, T> {
    loop {
        match step {
            Step::Ask(flow, request) => {
                let reply = repo.answer(&request);
                repo.log.push(request);
                step = resume(flow, reply);
            }
            other => return other,
        }
    }
}

fn project(has_manifest: bool) -> Pargit {
    Pargit::new("/repo".to_string(), "/repo".to_string(), has_manifest, Config::default())
}

fn manifest(name: &str, version: &str) -> String {
    format!("[package]\nname = \"{}\"\nversion = \"{}\"\n", name, version)
}

fn switch_to(branch: &str) -> Request {
    Request::SwitchTo { branch: branch.to_string() }
}

fn delete_branch(name: &str) -> Request {
    Request::DeleteBranch { name: name.to_string() }
}

fn find_branch(name: &str) -> Request {
    Request::FindBranch { name: name.to_string() }
}

fn merge(branch: &str, message: &str) -> Request {
    Request::Merge { branch: branch.to_string(), message: message.to_string() }
}

fn push(source: &str, target: &str, track: bool) -> Request {
    Request::Push { source: source.to_string(), target: target.to_string(), track }
}

fn is_up_to_date(branch: &str) -> Request {
    Request::IsUpToDate { branch: branch.to_string() }
}

fn options(no_pull: bool) -> ReleaseOptions {
    ReleaseOptions { no_pull }
}

fn clear(repo: &mut Repo) {
    repo.log.clear();
}

// Start

#[test]
fn start_creates_the_branch_at_develop_and_checks_it_out() {
    let p = project(false);
    let mut repo = Repo::new(&["master", "develop"], "develop");
    let end = drive(&mut repo, p.pargit_start(ObjectKind::Feature, "x", None), |f, r| f.resume(&p, r));
    assert_eq!(end, Step::Done(()));
    assert!(repo.branches.contains("feature/x"));
    assert_eq!(repo.current, "feature/x");
    assert_eq!(
        repo.log,
        vec![
            find_branch("feature/x"),
            Request::CreateBranch { name: "feature/x".to_string(), start_point: "develop".to_string() },
            switch_to("feature/x"),
        ]
    );
}

#[test]
fn start_of_a_hotfix_begins_at_main_and_from_ref_overrides() {
    let p = project(false);
    let mut repo = Repo::new(&["master", "develop"], "develop");
    drive(&mut repo, p.pargit_start(ObjectKind::Hotfix, "1.0.1", None), |f, r| f.resume(&p, r));
    assert_eq!(
        repo.log[1],
        Request::CreateBranch { name: "hotfix/1.0.1".to_string(), start_point: "master".to_string() }
    );
    clear(&mut repo);
    drive(&mut repo, p.pargit_start(ObjectKind::Bugfix, "y", Some("abc123")), |f, r| {
        f.resume(&p, r)
    });
    assert_eq!(
        repo.log[1],
        Request::CreateBranch { name: "bugfix/y".to_string(), start_point: "abc123".to_string() }
    );
}

#[test]
fn start_of_what_is_in_progress_fails_and_creates_nothing() {
    let p = project(false);
    let mut repo = Repo::new(&["master", "develop", "feature/x"], "develop");
    let before = repo.branches.clone();
    let end = drive(&mut repo, p.pargit_start(ObjectKind::Feature, "x", None), |f, r| f.resume(&p, r));
    assert_eq!(
        end,
        Step::Failed(FlowError::AlreadyInProgress {
            kind: ObjectKind::Feature,
            name: "x".to_string()
        })
    );
    assert_eq!(repo.branches, before);
    assert_eq!(repo.current, "develop");
    assert_eq!(repo.log, vec![find_branch("feature/x")]);
}

#[test]
fn start_reports_what_the_repository_reports() {
    let p = project(false);
    let mut repo = Repo::new(&["master", "develop"], "develop");
    let step = p.pargit_start(ObjectKind::Feature, "x", None);
    let step = match step {
        Step::Ask(flow, _) => flow.resume(&p, Reply::Missing),
        other => other,
    };
    let end = match step {
        Step::Ask(flow, _) => flow.resume(&p, Repo::failed("bad revision")),
        other => other,
    };
    assert_eq!(end, Step::Failed(FlowError::Backend { message: "bad revision".to_string() }));
    assert!(repo.answer(&Request::IsDirty) == Reply::Flag(false));
}

// Delete

#[test]
fn delete_removes_the_branch() {
    let p = project(false);
    let mut repo = Repo::new(&["master", "develop", "feature/x"], "develop");
    let end = drive(
        &mut repo,
        p.pargit_delete(ObjectKind::Feature, Some("x".to_string())),
        |f, r| f.resume(&p, r),
    );
    assert_eq!(end, Step::Done(()));
    assert!(!repo.branches.contains("feature/x"));
    assert_eq!(
        repo.log,
        vec![
            find_branch("feature/x"),
            Request::Upstream { branch: "feature/x".to_string() },
            Request::CurrentBranch,
            delete_branch("feature/x"),
        ]
    );
}

#[test]
fn delete_twice_fails_with_branch_not_found_and_changes_nothing() {
    let p = project(false);
    let mut repo = Repo::new(&["master", "develop", "feature/x"], "develop");
    let first = drive(
        &mut repo,
        p.pargit_delete(ObjectKind::Feature, Some("x".to_string())),
        |f, r| f.resume(&p, r),
    );
    assert_eq!(first, Step::Done(()));
    let branches = repo.branches.clone();
    let current = repo.current.clone();
    clear(&mut repo);
    let second = drive(
        &mut repo,
        p.pargit_delete(ObjectKind::Feature, Some("x".to_string())),
        |f, r| f.resume(&p, r),
    );
    assert_eq!(second, Step::Failed(FlowError::BranchNotFound { branch: "feature/x".to_string() }));
    assert_eq!(repo.branches, branches);
    assert_eq!(repo.current, current);
    assert_eq!(repo.log, vec![find_branch("feature/x")]);
}

#[test]
fn delete_of_the_checked_out_branch_leaves_for_develop_first() {
    let p = project(false);
    let mut repo = Repo::new(&["master", "develop", "bugfix/y"], "bugfix/y");
    let end = drive(&mut repo, p.pargit_delete(ObjectKind::Bugfix, None), |f, r| f.resume(&p, r));
    assert_eq!(end, Step::Done(()));
    assert_eq!(repo.current, "develop");
    assert!(!repo.branches.contains("bugfix/y"));
    assert_eq!(
        repo.log,
        vec![
            Request::CurrentBranch,
            find_branch("bugfix/y"),
            Request::Upstream { branch: "bugfix/y".to_string() },
            Request::CurrentBranch,
            switch_to("develop"),
            delete_branch("bugfix/y"),
        ]
    );
}

#[test]
fn delete_removes_the_remote_branch_first() {
    let p = project(false);
    let mut repo = Repo::new(&["master", "develop", "feature/a/b"], "develop");
    repo.upstreams.insert("feature/a/b".to_string(), "upstream/feature/a/b".to_string());
    let end = drive(
        &mut repo,
        p.pargit_delete(ObjectKind::Feature, Some("a/b".to_string())),
        |f, r| f.resume(&p, r),
    );
    assert_eq!(end, Step::Done(()));
    assert_eq!(
        repo.log[2],
        Request::DeleteRemoteBranch {
            remote: "upstream".to_string(),
            branch: "feature/a/b".to_string()
        }
    );
    assert_eq!(repo.log[4], delete_branch("feature/a/b"));
    assert!(repo.upstreams.is_empty());
}

#[test]
fn delete_without_a_name_needs_a_branch_of_the_kind() {
    let p = project(false);
    let mut repo = Repo::new(&["master", "develop", "feature/x"], "feature/x");
    let end = drive(&mut repo, p.pargit_delete(ObjectKind::Release, None), |f, r| f.resume(&p, r));
    assert_eq!(
        end,
        Step::Failed(FlowError::NoCurrentName {
            kind: ObjectKind::Release,
            branch: "feature/x".to_string()
        })
    );
    assert!(repo.branches.contains("feature/x"));
    assert_eq!(repo.log, vec![Request::CurrentBranch]);
}

// Publish

#[test]
fn publish_pushes_the_branch_to_its_own_name_and_tells_what_the_remote_wrote() {
    let p = project(false);
    let mut repo = Repo::new(&["master", "develop", "feature/x"], "feature/x");
    let end = drive(&mut repo, p.pargit_publish(ObjectKind::Feature, None), |f, r| f.resume(r));
    assert_eq!(
        end,
        Step::Done(vec!["remote: Resolving deltas".to_string(), "remote: Done".to_string()])
    );
    assert_eq!(repo.log, vec![Request::CurrentBranch, push("feature/x", "feature/x", true)]);
    assert_eq!(repo.upstreams.get("feature/x"), Some(&"origin/feature/x".to_string()));
}

#[test]
fn publish_fails_with_what_the_push_reported() {
    let p = project(false);
    let mut repo = Repo::new(&["master", "develop", "release/1.0.0"], "develop");
    repo.rejects_push_to = Some("release/1.0.0".to_string());
    let end = drive(
        &mut repo,
        p.pargit_publish(ObjectKind::Release, Some("1.0.0".to_string())),
        |f, r| f.resume(r),
    );
    assert_eq!(
        end,
        Step::Failed(FlowError::Backend { message: "! [rejected] (fetch first)".to_string() })
    );
}

// Finish of what is no release

#[test]
fn finish_merges_into_the_destination_and_deletes_the_branch() {
    let p = project(false);
    let mut repo = Repo::new(&["master", "develop", "feature/x"], "feature/x");
    let end = drive(&mut repo, p.pargit_finish(ObjectKind::Feature, None, "develop"), |f, r| {
        f.resume(&p, r)
    });
    assert_eq!(end, Step::Done(()));
    assert_eq!(repo.current, "develop");
    assert!(!repo.branches.contains("feature/x"));
    assert_eq!(
        repo.log,
        vec![
            Request::CurrentBranch,
            switch_to("develop"),
            merge("feature/x", "Merge feature/x"),
            find_branch("feature/x"),
            Request::Upstream { branch: "feature/x".to_string() },
            Request::CurrentBranch,
            delete_branch("feature/x"),
        ]
    );
}

#[test]
fn finish_stops_at_a_merge_that_fails() {
    let p = project(false);
    let mut repo = Repo::new(&["master", "develop", "feature/x"], "develop");
    repo.conflicts_with = Some("feature/x".to_string());
    let end = drive(
        &mut repo,
        p.pargit_finish(ObjectKind::Feature, Some("x".to_string()), "develop"),
        |f, r| f.resume(&p, r),
    );
    assert_eq!(end, Step::Failed(FlowError::Backend { message: "CONFLICT (content)".to_string() }));
    assert!(repo.branches.contains("feature/x"));
    assert_eq!(repo.log.len(), 2);
}

// Finish of a release

fn release_in_progress() -> Repo {
    Repo::new(&["master", "develop", "release/1.2.0"], "release/1.2.0")
}

fn finish_release(p: &Pargit, repo: &mut Repo, no_pull: bool) -> Step<pargit::flow::release_finish::ReleaseFinishFlow, ()> {
    let begun = p.release_finish(
        Some("1.2.0".to_string()),
        Some("v1.2.0".to_string()),
        ObjectKind::Release,
        options(no_pull),
    );
    drive(repo, begun, |f, r| f.resume(p, r))
}

#[test]
fn finish_of_a_release_goes_through_every_step_in_order() {
    let p = project(true);
    let mut repo = release_in_progress();
    let end = finish_release(&p, &mut repo, false);
    assert_eq!(end, Step::Done(()));
    let temp = "in-progress-release-1.2.0";
    assert_eq!(
        repo.log,
        vec![
            switch_to("release/1.2.0"),
            Request::Verify { command: "cargo check --workspace --tests".to_string() },
            Request::IsDirty,
            is_up_to_date("develop"),
            is_up_to_date("master"),
            Request::CreateBranch { name: temp.to_string(), start_point: "master".to_string() },
            switch_to(temp),
            merge("release/1.2.0", "Merge release branch 1.2.0"),
            Request::CreateTag { name: "v1.2.0".to_string() },
            push(temp, "master", false),
            switch_to("master"),
            merge(temp, "Merge temporary release branch"),
            Request::PushTags,
            switch_to("develop"),
            merge("master", "Merge master branch"),
            push("develop", "develop", false),
            delete_branch(temp),
            find_branch("release/1.2.0"),
            Request::Upstream { branch: "release/1.2.0".to_string() },
            Request::CurrentBranch,
            delete_branch("release/1.2.0"),
        ]
    );
    assert_eq!(repo.branches, set(&["master", "develop"]));
    assert_eq!(repo.tags, set(&["v1.2.0"]));
    assert_eq!(repo.current, "develop");
}

#[test]
fn finish_of_a_release_without_a_tag_names_it_by_the_settings() {
    let mut p = project(false);
    p.config.tag_prefix = "rel-".to_string();
    p.config.main_branch_name = "main".to_string();
    let mut repo = Repo::new(&["main", "develop", "hotfix/1.2.1"], "hotfix/1.2.1");
    let begun = p.release_finish(None, None, ObjectKind::Hotfix, options(false));
    let end = drive(&mut repo, begun, |f, r| f.resume(&p, r));
    assert_eq!(end, Step::Done(()));
    assert_eq!(repo.tags, set(&["rel-1.2.1"]));
    assert_eq!(repo.log[0], Request::CurrentBranch);
    assert_eq!(repo.log[1], switch_to("hotfix/1.2.1"));
    assert_eq!(repo.log[2], Request::IsDirty);
    assert!(repo.log.contains(&merge("hotfix/1.2.1", "Merge hotfix branch 1.2.1")));
    assert!(repo.log.contains(&push("in-progress-hotfix-1.2.1", "main", false)));
    assert!(repo.log.contains(&merge("main", "Merge main branch")));
}

#[test]
fn a_rejected_push_is_rolled_back() {
    let p = project(true);
    let mut repo = release_in_progress();
    repo.rejects_push_to = Some("master".to_string());
    let end = finish_release(&p, &mut repo, false);
    assert_eq!(
        end,
        Step::Failed(FlowError::RolledBack {
            kind: ObjectKind::Release,
            message: "! [rejected] (fetch first)".to_string()
        })
    );
    assert!(repo.tags.is_empty());
    assert_eq!(repo.current, "release/1.2.0");
    assert_eq!(repo.branches, set(&["master", "develop", "release/1.2.0"]));
    assert!(repo.pushed.is_empty());
    let n = repo.log.len();
    assert_eq!(
        repo.log[n - 4..],
        [
            push("in-progress-release-1.2.0", "master", false),
            Request::DeleteTag { name: "v1.2.0".to_string() },
            switch_to("release/1.2.0"),
            delete_branch("in-progress-release-1.2.0"),
        ]
    );
}

#[test]
fn a_tag_that_cannot_be_made_is_rolled_back() {
    let p = project(true);
    let mut repo = release_in_progress();
    repo.tags.insert("v1.2.0".to_string());
    let end = finish_release(&p, &mut repo, false);
    assert_eq!(
        end,
        Step::Failed(FlowError::RolledBack {
            kind: ObjectKind::Release,
            message: "tag already exists".to_string()
        })
    );
    assert_eq!(repo.current, "release/1.2.0");
    assert_eq!(repo.branches, set(&["master", "develop", "release/1.2.0"]));
    assert!(repo.pushed.is_empty());
    assert!(!repo.log.iter().any(|r| matches!(r, Request::Push { .. })));
}

#[test]
fn the_undoing_goes_on_past_steps_that_fail() {
    let p = project(false);
    let begun = p.release_finish(
        Some("2.0.0".to_string()),
        None,
        ObjectKind::Release,
        options(false),
    );
    let mut step = begun;
    let mut asked = Vec::new();
    let replies = vec![
        Reply::Done,
        Reply::Flag(false),
        Reply::Flag(true),
        Reply::Flag(true),
        Reply::Done,
        Reply::Done,
        Reply::Done,
        Repo::failed("no tagger"),
        Repo::failed("no tag"),
        Repo::failed("no checkout"),
        Repo::failed("no delete"),
    ];
    for reply in replies {
        step = match step {
            Step::Ask(flow, request) => {
                asked.push(request);
                flow.resume(&p, reply)
            }
            other => other,
        };
    }
    assert_eq!(
        step,
        Step::Failed(FlowError::RolledBack {
            kind: ObjectKind::Release,
            message: "no tagger".to_string()
        })
    );
    assert_eq!(
        asked[7..],
        [
            Request::CreateTag { name: "2.0.0".to_string() },
            Request::DeleteTag { name: "2.0.0".to_string() },
            switch_to("release/2.0.0"),
            delete_branch("in-progress-release-2.0.0"),
        ]
    );
}

#[test]
fn a_merge_that_fails_is_undone_before_any_tag() {
    let p = project(true);
    let mut repo = release_in_progress();
    repo.conflicts_with = Some("release/1.2.0".to_string());
    let end = finish_release(&p, &mut repo, false);
    assert_eq!(end, Step::Failed(FlowError::MergeFailed { message: "CONFLICT (content)".to_string() }));
    assert!(repo.tags.is_empty());
    assert!(repo.pushed.is_empty());
    assert_eq!(repo.branches, set(&["master", "develop", "release/1.2.0"]));
    assert_eq!(repo.current, "release/1.2.0");
    let n = repo.log.len();
    assert_eq!(
        repo.log[n - 4..],
        [
            merge("release/1.2.0", "Merge release branch 1.2.0"),
            Request::AbortMerge,
            switch_to("release/1.2.0"),
            delete_branch("in-progress-release-1.2.0"),
        ]
    );
    assert!(!repo.log.iter().any(|r| matches!(r, Request::CreateTag { .. } | Request::DeleteTag { .. })));
}

#[test]
fn a_build_that_fails_or_dirties_the_tree_stops_the_finish() {
    let p = project(true);
    let mut repo = release_in_progress();
    repo.build_fails = true;
    let end = finish_release(&p, &mut repo, false);
    assert_eq!(
        end,
        Step::Failed(FlowError::BuildFailed { message: "error[E0308]: mismatched types".to_string() })
    );
    assert_eq!(repo.log.len(), 2);

    let mut repo = release_in_progress();
    repo.build_dirties = true;
    let end = finish_release(&p, &mut repo, false);
    assert_eq!(end, Step::Failed(FlowError::DirtyAfterBuild));
    assert_eq!(repo.branches, set(&["master", "develop", "release/1.2.0"]));
    assert_eq!(repo.log.len(), 3);
}

#[test]
fn a_trunk_that_is_behind_is_pulled_unless_ruled_out() {
    let p = project(true);
    let mut repo = release_in_progress();
    repo.behind.insert("master".to_string());
    let end = finish_release(&p, &mut repo, false);
    assert_eq!(end, Step::Done(()));
    assert_eq!(
        repo.log[3..7],
        [
            is_up_to_date("develop"),
            is_up_to_date("master"),
            Request::Pull { branch: "master".to_string(), ff_only: true },
            is_up_to_date("master"),
        ]
    );

    let mut repo = release_in_progress();
    repo.behind.insert("develop".to_string());
    let end = finish_release(&p, &mut repo, true);
    assert_eq!(end, Step::Failed(FlowError::BehindRemote { branch: "develop".to_string() }));
    assert_eq!(repo.log.last(), Some(&is_up_to_date("develop")));

    let mut repo = release_in_progress();
    repo.behind.insert("develop".to_string());
    repo.pull_helps = false;
    let end = finish_release(&p, &mut repo, false);
    assert_eq!(end, Step::Failed(FlowError::StillBehind { branch: "develop".to_string() }));
    assert_eq!(repo.branches, set(&["master", "develop", "release/1.2.0"]));
}

#[test]
fn a_failure_behind_the_push_leaves_the_release_stranded() {
    let p = project(true);
    let mut repo = release_in_progress();
    repo.fails_push_of_tags = true;
    let end = finish_release(&p, &mut repo, false);
    assert_eq!(end, Step::Stranded(FlowError::Backend { message: "connection lost".to_string() }));
    assert_eq!(repo.pushed, vec![("in-progress-release-1.2.0".to_string(), "master".to_string())]);
    assert_eq!(repo.tags, set(&["v1.2.0"]));
    assert!(repo.branches.contains("release/1.2.0"));
    assert!(!repo.log.iter().any(|r| matches!(r, Request::DeleteTag { .. })));
}

#[test]
fn the_temporary_branch_is_named_after_kind_and_release() {
    assert_eq!(temp_branch_name(ObjectKind::Release, "1.2.0"), "in-progress-release-1.2.0");
    assert_eq!(temp_branch_name(ObjectKind::Hotfix, "x"), "in-progress-hotfix-x");
}

// Start of a release

fn two_packages(repo: &mut Repo, a: &str, b: &str) {
    repo.files.insert("/repo/a/Cargo.toml".to_string(), manifest("a", a));
    repo.files.insert("/repo/b/Cargo.toml".to_string(), manifest("b", b));
    repo.files.insert("/repo/README.md".to_string(), "hello".to_string());
}

#[test]
fn start_of_a_release_rewrites_every_file_that_shares_the_version() {
    let p = project(true);
    let mut repo = Repo::new(&["master", "develop"], "develop");
    two_packages(&mut repo, "2.0.0", "2.0.0");
    let begun = p.release_start(VersionSpec::Bump(BumpKind::Major), ObjectKind::Release, None);
    let end = drive(&mut repo, begun, |f, r| f.resume(&p, r));
    let release = match end {
        Step::Done(release) => release,
        other => panic!("unexpected: {:?}", other),
    };
    assert_eq!(release.version, Version::new(3, 0, 0));
    assert_eq!(release.name, "3.0.0");
    assert_eq!(release.tag, "3.0.0");
    assert_eq!(repo.files["/repo/a/Cargo.toml"], manifest("a", "3.0.0"));
    assert_eq!(repo.files["/repo/b/Cargo.toml"], manifest("b", "3.0.0"));
    assert_eq!(repo.files["/repo/README.md"], "hello");
    assert_eq!(repo.current, "release/3.0.0");
    assert_eq!(
        repo.log,
        vec![
            Request::ReadManifests,
            Request::HasTag { name: "3.0.0".to_string() },
            find_branch("release/3.0.0"),
            Request::CreateBranch {
                name: "release/3.0.0".to_string(),
                start_point: "develop".to_string()
            },
            switch_to("release/3.0.0"),
            Request::ReadFile { path: "/repo/a/Cargo.toml".to_string() },
            Request::WriteFile {
                path: "/repo/a/Cargo.toml".to_string(),
                content: manifest("a", "3.0.0")
            },
            Request::ReadFile { path: "/repo/b/Cargo.toml".to_string() },
            Request::WriteFile {
                path: "/repo/b/Cargo.toml".to_string(),
                content: manifest("b", "3.0.0")
            },
            Request::Verify { command: "cargo check --workspace --tests".to_string() },
        ]
    );
}

#[test]
fn start_of_a_release_asks_which_file_to_bump_among_several_versions() {
    let p = project(true);
    let mut repo = Repo::new(&["master", "develop"], "develop");
    two_packages(&mut repo, "1.0.0", "2.5.0");
    repo.choice = 1;
    let begun = p.release_start(VersionSpec::Bump(BumpKind::Minor), ObjectKind::Release, None);
    let end = drive(&mut repo, begun, |f, r| f.resume(&p, r));
    let release = match end {
        Step::Done(release) => release,
        other => panic!("unexpected: {:?}", other),
    };
    assert_eq!(release.version, Version::new(2, 6, 0));
    assert_eq!(
        repo.log[1],
        Request::Choose {
            prompt: "Multiple Cargo.toml files found. Which one would you like to bump?".to_string(),
            options: vec!["a/Cargo.toml".to_string(), "b/Cargo.toml".to_string()],
        }
    );
    assert_eq!(repo.files["/repo/a/Cargo.toml"], manifest("a", "1.0.0"));
    assert_eq!(repo.files["/repo/b/Cargo.toml"], manifest("b", "2.6.0"));
}

#[test]
fn start_of_a_release_with_a_given_version_rewrites_every_file() {
    let p = project(true);
    let mut repo = Repo::new(&["master", "develop"], "develop");
    two_packages(&mut repo, "1.0.0", "2.5.0");
    let begun = p.release_start(
        VersionSpec::Exact(Version::new(4, 0, 0)),
        ObjectKind::Hotfix,
        Some("v3"),
    );
    let end = drive(&mut repo, begun, |f, r| f.resume(&p, r));
    assert!(matches!(end, Step::Done(_)));
    assert!(!repo.log.iter().any(|r| matches!(r, Request::Choose { .. })));
    assert_eq!(repo.files["/repo/a/Cargo.toml"], manifest("a", "4.0.0"));
    assert_eq!(repo.files["/repo/b/Cargo.toml"], manifest("b", "4.0.0"));
    assert!(repo.log.contains(&Request::CreateBranch {
        name: "hotfix/4.0.0".to_string(),
        start_point: "v3".to_string()
    }));
}

#[test]
fn start_of_a_release_without_files_goes_by_the_tags() {
    let p = project(false);
    let mut repo = Repo::new(&["master", "develop"], "develop");
    repo.tags = set(&["v1.2.0", "v1.3.0", "bogus"]);
    let begun = p.release_start(VersionSpec::Bump(BumpKind::Minor), ObjectKind::Release, None);
    let end = drive(&mut repo, begun, |f, r| f.resume(&p, r));
    let release = match end {
        Step::Done(release) => release,
        other => panic!("unexpected: {:?}", other),
    };
    assert_eq!(release.version, Version::new(1, 4, 0));
    assert_eq!(release.tag, "v1.4.0");
    assert_eq!(repo.current, "release/1.4.0");
    assert_eq!(repo.log[0], Request::ListTags);
    assert_eq!(repo.log[1], Request::HasTag { name: "v1.4.0".to_string() });
    assert_eq!(repo.log.len(), 5);
}

#[test]
fn start_of_a_release_whose_tag_exists_changes_nothing() {
    let p = project(true);
    let mut repo = Repo::new(&["master", "develop"], "develop");
    two_packages(&mut repo, "2.0.0", "2.0.0");
    repo.tags.insert("2.1.0".to_string());
    let begun = p.release_start(VersionSpec::Bump(BumpKind::Minor), ObjectKind::Release, None);
    let end = drive(&mut repo, begun, |f, r| f.resume(&p, r));
    assert_eq!(end, Step::Failed(FlowError::TagExists { tag: "2.1.0".to_string() }));
    assert_eq!(repo.branches, set(&["master", "develop"]));
    assert_eq!(repo.files["/repo/a/Cargo.toml"], manifest("a", "2.0.0"));
    assert!(repo.log.iter().all(|r| matches!(r, Request::ReadManifests | Request::HasTag { .. })));
}

#[test]
fn start_of_a_release_that_cannot_be_resolved_fails_before_any_branch() {
    let p = project(false);
    let mut repo = Repo::new(&["master", "develop"], "develop");
    let begun = p.release_start(VersionSpec::Bump(BumpKind::Minor), ObjectKind::Release, None);
    let end = drive(&mut repo, begun, |f, r| f.resume(&p, r));
    assert_eq!(end, Step::Failed(FlowError::Resolve { reason: ResolveError::CannotDeduce }));
    assert_eq!(repo.log, vec![Request::ListTags]);

    let p = project(true);
    let begun = p.release_start(VersionSpec::Bump(BumpKind::Minor), ObjectKind::Release, None);
    let end = drive(&mut repo, begun, |f, r| f.resume(&p, r));
    assert_eq!(
        end,
        Step::Failed(FlowError::Manifest {
            error: ManifestError::NoneFound { root: "/repo".to_string() }
        })
    );
    assert_eq!(repo.branches, set(&["master", "develop"]));
}

#[test]
fn start_of_a_release_deletes_the_branch_again_when_the_build_fails() {
    let p = project(true);
    let mut repo = Repo::new(&["master", "develop"], "develop");
    two_packages(&mut repo, "2.0.0", "2.0.0");
    repo.build_fails = true;
    let begun = p.release_start(VersionSpec::Bump(BumpKind::Patch), ObjectKind::Release, None);
    let end = drive(&mut repo, begun, |f, r| f.resume(&p, r));
    assert_eq!(
        end,
        Step::Failed(FlowError::BuildFailed { message: "error[E0308]: mismatched types".to_string() })
    );
    assert_eq!(repo.branches, set(&["master", "develop"]));
    assert_eq!(repo.current, "develop");
    let n = repo.log.len();
    assert_eq!(
        repo.log[n - 6..],
        [
            Request::CurrentBranch,
            find_branch("release/2.0.1"),
            Request::Upstream { branch: "release/2.0.1".to_string() },
            Request::CurrentBranch,
            switch_to("develop"),
            delete_branch("release/2.0.1"),
        ]
    );
}

// Release of a version in one go

#[test]
fn release_version_starts_commits_and_finishes() {
    let p = project(true);
    let mut repo = Repo::new(&["master", "develop"], "develop");
    two_packages(&mut repo, "2.0.0", "2.0.0");
    let begun = p.release_version(BumpKind::Major, ObjectKind::Release, options(false));
    let end = drive(&mut repo, begun, |f, r| f.resume(&p, r));
    assert_eq!(end, Step::Done(()));
    assert_eq!(repo.files["/repo/a/Cargo.toml"], manifest("a", "3.0.0"));
    assert_eq!(repo.files["/repo/b/Cargo.toml"], manifest("b", "3.0.0"));
    assert_eq!(repo.commits, vec!["pargit: Bump version".to_string()]);
    assert_eq!(repo.tags, set(&["3.0.0"]));
    assert_eq!(repo.branches, set(&["master", "develop"]));
    assert_eq!(repo.current, "develop");
    assert_eq!(
        repo.pushed,
        vec![
            ("in-progress-release-3.0.0".to_string(), "master".to_string()),
            ("develop".to_string(), "develop".to_string()),
        ]
    );
}

#[test]
fn release_version_deletes_the_release_branch_when_the_push_is_rejected() {
    let p = project(true);
    let mut repo = Repo::new(&["master", "develop"], "develop");
    two_packages(&mut repo, "2.0.0", "2.0.0");
    repo.rejects_push_to = Some("master".to_string());
    let begun = p.release_version(BumpKind::Minor, ObjectKind::Release, options(false));
    let end = drive(&mut repo, begun, |f, r| f.resume(&p, r));
    assert_eq!(
        end,
        Step::Failed(FlowError::RolledBack {
            kind: ObjectKind::Release,
            message: "! [rejected] (fetch first)".to_string()
        })
    );
    assert!(repo.tags.is_empty());
    assert_eq!(repo.branches, set(&["master", "develop"]));
    assert_eq!(repo.current, "develop");
    assert!(repo.pushed.is_empty());
}

#[test]
fn release_version_that_strands_still_tries_to_delete_the_branch() {
    let p = project(true);
    let mut repo = Repo::new(&["master", "develop"], "develop");
    two_packages(&mut repo, "2.0.0", "2.0.0");
    repo.fails_push_of_tags = true;
    let begun = p.release_version(BumpKind::Minor, ObjectKind::Release, options(false));
    let end = drive(&mut repo, begun, |f, r| f.resume(&p, r));
    assert_eq!(end, Step::Stranded(FlowError::Backend { message: "connection lost".to_string() }));
    assert_eq!(repo.tags, set(&["2.1.0"]));
    assert!(!repo.branches.contains("release/2.1.0"));
    assert_eq!(repo.pushed.len(), 1);
}

#[test]
fn release_version_that_cannot_start_has_nothing_to_undo() {
    let p = project(false);
    let mut repo = Repo::new(&["master", "develop"], "develop");
    let begun = p.release_version(BumpKind::Minor, ObjectKind::Release, options(false));
    let end = drive(&mut repo, begun, |f, r| f.resume(&p, r));
    assert_eq!(end, Step::Failed(FlowError::Resolve { reason: ResolveError::CannotDeduce }));
    assert_eq!(repo.log, vec![Request::ListTags]);
}

// Bump of the version

#[test]
fn bump_rewrites_every_file_and_builds() {
    let p = project(true);
    let mut repo = Repo::new(&["master", "develop"], "develop");
    two_packages(&mut repo, "2.0.0", "2.0.0");
    let end = drive(&mut repo, p.bump_version(BumpKind::Major), |f, r| f.resume(&p, r));
    assert_eq!(end, Step::Done(()));
    assert_eq!(repo.files["/repo/a/Cargo.toml"], manifest("a", "3.0.0"));
    assert_eq!(repo.files["/repo/b/Cargo.toml"], manifest("b", "3.0.0"));
    assert_eq!(
        repo.log.last(),
        Some(&Request::Verify { command: "cargo check --workspace --tests".to_string() })
    );
    assert_eq!(repo.branches, set(&["master", "develop"]));
}

#[test]
fn bump_of_the_chosen_file_leaves_the_others() {
    let p = project(true);
    let mut repo = Repo::new(&["master", "develop"], "develop");
    two_packages(&mut repo, "1.0.0", "2.5.0");
    repo.choice = 0;
    let end = drive(&mut repo, p.bump_version(BumpKind::Patch), |f, r| f.resume(&p, r));
    assert_eq!(end, Step::Done(()));
    assert_eq!(repo.files["/repo/a/Cargo.toml"], manifest("a", "1.0.1"));
    assert_eq!(repo.files["/repo/b/Cargo.toml"], manifest("b", "2.5.0"));
}

#[test]
fn bump_without_version_files_fails() {
    let p = project(false);
    let mut repo = Repo::new(&["master", "develop"], "develop");
    let end = drive(&mut repo, p.bump_version(BumpKind::Patch), |f, r| f.resume(&p, r));
    assert_eq!(end, Step::Failed(FlowError::NoVersionFiles));
    assert!(repo.log.is_empty());
}

#[test]
fn bump_with_a_choice_out_of_range_fails() {
    let p = project(true);
    let mut repo = Repo::new(&["master", "develop"], "develop");
    two_packages(&mut repo, "1.0.0", "2.5.0");
    repo.choice = 5;
    let end = drive(&mut repo, p.bump_version(BumpKind::Patch), |f, r| f.resume(&p, r));
    assert_eq!(end, Step::Failed(FlowError::Resolve { reason: ResolveError::NeedsChoice }));
    assert_eq!(repo.files["/repo/a/Cargo.toml"], manifest("a", "1.0.0"));
}

// Undoing

fn deletion(kind: ObjectKind, name: &str) -> ExitStackItem<Compensation> {
    ExitStackItem {
        msg: format!("Delete {}", name),
        action: Compensation::DeleteObject { kind, name: Some(name.to_string()) },
    }
}

#[test]
fn every_compensation_is_tried_even_where_one_fails() {
    let p = project(false);
    let mut repo = Repo::new(&["master", "develop", "feature/b", "feature/c"], "develop");
    let items = vec![
        deletion(ObjectKind::Feature, "c"),
        deletion(ObjectKind::Feature, "gone"),
        deletion(ObjectKind::Feature, "b"),
    ];
    let end = drive(&mut repo, UnwindFlow::starting(items, 0), |f, r| f.resume(&p, r));
    assert_eq!(end, Step::Done(()));
    assert_eq!(repo.branches, set(&["master", "develop"]));
    assert!(repo.log.contains(&find_branch("feature/gone")));
    let end = drive(&mut repo, UnwindFlow::starting(Vec::new(), 0), |f, r| f.resume(&p, r));
    assert_eq!(end, Step::Done(()));
}

#[test]
fn a_release_that_cannot_be_undone_still_ends_in_what_made_it_fail() {
    let p = project(true);
    let begun = p.release_start(VersionSpec::Exact(Version::new(1, 0, 0)), ObjectKind::Release, None);
    let replies = vec![
        Reply::Manifests(vec![ManifestSource {
            path: "/repo/Cargo.toml".to_string(),
            content: manifest("a", "0.9.0"),
            ignored: false,
        }]),
        Reply::Flag(false),
        Reply::Missing,
        Reply::Done,
        Reply::Done,
        Reply::Text(manifest("a", "0.9.0")),
        Repo::failed("disk full"),
        Repo::failed("detached HEAD"),
    ];
    let mut step = begun;
    let mut asked = Vec::new();
    for reply in replies {
        step = match step {
            Step::Ask(flow, request) => {
                asked.push(request);
                flow.resume(&p, reply)
            }
            other => other,
        };
    }
    assert_eq!(step, Step::Failed(FlowError::Backend { message: "disk full".to_string() }));
    assert_eq!(
        asked[5..],
        [
            Request::ReadFile { path: "/repo/Cargo.toml".to_string() },
            Request::WriteFile {
                path: "/repo/Cargo.toml".to_string(),
                content: manifest("a", "1.0.0")
            },
            Request::CurrentBranch,
        ]
    );
}

// Replies of another shape

#[test]
fn a_reply_of_another_shape_ends_the_operation() {
    let p = project(true);
    let end = match p.pargit_delete(ObjectKind::Feature, Some("x".to_string())) {
        Step::Ask(flow, _) => flow.resume(&p, Reply::Flag(true)),
        other => other,
    };
    assert_eq!(end, Step::Failed(FlowError::UnexpectedReply));
    let end = match p.bump_version(BumpKind::Patch) {
        Step::Ask(flow, _) => flow.resume(&p, Reply::Done),
        other => other,
    };
    assert_eq!(end, Step::Failed(FlowError::UnexpectedReply));
    let end = match p.pargit_publish(ObjectKind::Feature, None) {
        Step::Ask(flow, _) => flow.resume(Reply::Index(3)),
        other => other,
    };
    assert_eq!(end, Step::Failed(FlowError::UnexpectedReply));
}

#[test]
fn an_upstream_without_a_remote_ends_the_deletion() {
    let p = project(false);
    let mut repo = Repo::new(&["master", "develop", "feature/x"], "develop");
    repo.upstreams.insert("feature/x".to_string(), "nowhere".to_string());
    let end = drive(
        &mut repo,
        p.pargit_delete(ObjectKind::Feature, Some("x".to_string())),
        |f, r| f.resume(&p, r),
    );
    assert_eq!(end, Step::Failed(FlowError::UnexpectedReply));
    assert!(repo.branches.contains("feature/x"));
}

// Labels of the choice

fn at(path: &str, version: &str) -> VersionFile {
    VersionFile::CargoToml {
        path: path.to_string(),
        version: Version::parse(version).unwrap(),
        is_workspace: false,
    }
}

#[test]
fn files_are_offered_by_their_path_from_the_project() {
    let files = vec![at("/repo/app/Cargo.toml", "1.0.0"), at("/repo/libs/x/Cargo.toml", "2.0.0")];
    assert_eq!(
        selection_labels(&files, "/repo"),
        Ok(vec!["app/Cargo.toml".to_string(), "libs/x/Cargo.toml".to_string()])
    );
    assert_eq!(
        selection_labels(&files, "/repo/app"),
        Ok(vec!["Cargo.toml".to_string(), "../libs/x/Cargo.toml".to_string()])
    );
    assert_eq!(selection_labels(&Vec::new(), "/repo"), Ok(Vec::new()));
}

#[test]
fn a_file_that_no_relative_path_leads_to_is_an_error() {
    let files = vec![at("/repo/app/Cargo.toml", "1.0.0"), at("libs/x/Cargo.toml", "2.0.0")];
    assert_eq!(selection_labels(&files, "/repo"), Err("libs/x/Cargo.toml".to_string()));

    let p = project(true);
    let mut repo = Repo::new(&["master", "develop"], "develop");
    repo.files.insert("a/Cargo.toml".to_string(), manifest("a", "1.0.0"));
    repo.files.insert("b/Cargo.toml".to_string(), manifest("b", "2.0.0"));
    let end = drive(&mut repo, p.bump_version(BumpKind::Patch), |f, r| f.resume(&p, r));
    assert_eq!(end, Step::Failed(FlowError::NotUnderProject { path: "a/Cargo.toml".to_string() }));
}

// Opening

#[test]
fn a_clean_repository_with_both_trunks_opens() {
    let p = project(false);
    let mut repo = Repo::new(&["master", "develop"], "develop");
    let end = drive(&mut repo, p.check_configuration(true), |f, r| f.resume(&p, r));
    assert_eq!(end, Step::Done(()));
    assert_eq!(repo.log, vec![Request::IsDirty, find_branch("develop"), find_branch("master")]);
}

#[test]
fn a_dirty_repository_does_not_open() {
    let p = project(false);
    let mut repo = Repo::new(&["master", "develop"], "develop");
    repo.dirty = true;
    let end = drive(&mut repo, p.check_configuration(true), |f, r| f.resume(&p, r));
    assert_eq!(end, Step::Failed(FlowError::Dirty));
}

#[test]
fn a_missing_develop_branch_is_an_error() {
    let p = project(false);
    let mut repo = Repo::new(&["master"], "master");
    let end = drive(&mut repo, p.check_configuration(true), |f, r| f.resume(&p, r));
    assert_eq!(end, Step::Failed(FlowError::MissingBranch { branch: "develop".to_string() }));
}

#[test]
fn a_missing_main_branch_is_created_where_the_user_agrees() {
    let p = project(false);
    let mut repo = Repo::new(&["develop"], "develop");
    let end = drive(&mut repo, p.check_configuration(true), |f, r| f.resume(&p, r));
    assert_eq!(end, Step::Done(()));
    assert!(repo.branches.contains("master"));
    assert_eq!(
        repo.log[3..],
        [
            Request::Confirm { prompt: "master branch not found. Create it?".to_string() },
            Request::TrackRemote { branch: "master".to_string() },
        ]
    );

    let mut repo = Repo::new(&["develop"], "develop");
    repo.confirms = false;
    let end = drive(&mut repo, p.check_configuration(true), |f, r| f.resume(&p, r));
    assert_eq!(end, Step::Failed(FlowError::MissingBranch { branch: "master".to_string() }));

    let mut repo = Repo::new(&["develop"], "develop");
    let end = drive(&mut repo, p.check_configuration(false), |f, r| f.resume(&p, r));
    assert_eq!(end, Step::Failed(FlowError::MissingBranch { branch: "master".to_string() }));
    assert!(!repo.log.iter().any(|r| matches!(r, Request::Confirm { .. })));
}

// Cleanup

fn branch(name: &str, in_remote_develop: bool, in_develop: bool) -> BranchState {
    BranchState { name: name.to_string(), in_remote_develop, in_develop }
}

#[test]
fn cleanup_deletes_the_flow_branches_that_only_the_remote_develop_holds() {
    let branches = vec![
        branch("develop", true, true),
        branch("feature/done", true, false),
        branch("feature/open", false, false),
        branch("bugfix/local", true, true),
        branch("topic/other", true, false),
        branch("release/1.0.0", true, false),
    ];
    assert_eq!(
        plan_cleanup("develop", "release/1.0.0", true, true, &branches),
        vec![
            delete_branch("feature/done"),
            switch_to("develop"),
            delete_branch("release/1.0.0"),
        ]
    );
    let p = project(false);
    assert_eq!(
        p.pargit_cleanup("develop", true, true, &branches),
        vec![delete_branch("feature/done"), delete_branch("release/1.0.0")]
    );
}

#[test]
fn cleanup_does_nothing_unless_the_remote_develop_is_ahead() {
    let branches = vec![branch("feature/done", true, false)];
    assert_eq!(plan_cleanup("develop", "develop", false, true, &branches), Vec::new());
    assert_eq!(plan_cleanup("develop", "develop", true, false, &branches), Vec::new());
    assert_eq!(plan_cleanup("develop", "develop", false, false, &branches), Vec::new());
    assert_eq!(plan_cleanup("develop", "develop", true, true, &Vec::new()), Vec::new());
}

#[test]
fn flow_branches_are_told_by_their_prefix() {
    assert!(flow_branch("feature/x"));
    assert!(flow_branch("hotfix/"));
    assert!(!flow_branch("develop"));
    assert!(!flow_branch("feature"));
}

// Commands

#[test]
fn commands_begin_their_operations() {
    let p = project(false);
    assert_eq!(entry_point(&p, Command::Configure), Operation::Configure);
    assert_eq!(entry_point(&p, Command::Cleanup), Operation::Cleanup);
    assert_eq!(
        entry_point(
            &p,
            Command::Feature(FlowCommand::Start { name: "x".to_string(), from_ref: None })
        ),
        Operation::Start(p.pargit_start(ObjectKind::Feature, "x", None))
    );
    assert_eq!(
        entry_point(&p, Command::Bugfix(FlowCommand::Finish { name: Some("y".to_string()) })),
        Operation::Finish(p.pargit_finish(ObjectKind::Bugfix, Some("y".to_string()), "develop"))
    );
    assert_eq!(
        entry_point(&p, Command::Bugfix(FlowCommand::Delete { name: None })),
        Operation::Delete(p.pargit_delete(ObjectKind::Bugfix, None))
    );
    assert_eq!(
        entry_point(&p, Command::Feature(FlowCommand::Publish { name: None })),
        Operation::Publish(p.pargit_publish(ObjectKind::Feature, None))
    );
    assert_eq!(
        entry_point(
            &p,
            Command::Hotfix(ReleaseCommand::Finish { options: options(true), name: None })
        ),
        Operation::ReleaseFinish(p.release_finish(None, None, ObjectKind::Hotfix, options(true)))
    );
    assert_eq!(
        entry_point(
            &p,
            Command::Release(ReleaseCommand::Start {
                spec: VersionSpec::Exact(Version::new(1, 0, 0)),
                from_ref: Some("abc".to_string())
            })
        ),
        Operation::ReleaseStart(p.release_start(
            VersionSpec::Exact(Version::new(1, 0, 0)),
            ObjectKind::Release,
            Some("abc")
        ))
    );
    assert_eq!(
        entry_point(
            &p,
            Command::Release(ReleaseCommand::Version { options: options(false), kind: BumpKind::Minor })
        ),
        Operation::ReleaseVersion(p.release_version(
            BumpKind::Minor,
            ObjectKind::Release,
            options(false)
        ))
    );
    assert_eq!(
        entry_point(&p, Command::Release(ReleaseCommand::Delete { name: Some("1".to_string()) })),
        Operation::Delete(p.pargit_delete(ObjectKind::Release, Some("1".to_string())))
    );
    assert_eq!(
        entry_point(&p, Command::Hotfix(ReleaseCommand::Publish { name: None })),
        Operation::Publish(p.pargit_publish(ObjectKind::Hotfix, None))
    );
    assert_eq!(
        entry_point(&p, Command::Version(VersionCommand::Bump { kind: BumpKind::Patch })),
        Operation::Bump(p.bump_version(BumpKind::Patch))
    );
}

// Failures in words

#[test]
fn failures_are_told_in_words() {
    let told = |e: FlowError| e.to_text();
    assert_eq!(told(FlowError::Backend { message: "fatal: bad object".to_string() }), "fatal: bad object");
    assert_eq!(
        told(FlowError::BranchNotFound { branch: "feature/x".to_string() }),
        "branch not found: feature/x"
    );
    assert_eq!(
        told(FlowError::AlreadyInProgress { kind: ObjectKind::Feature, name: "x".to_string() }),
        "feature x already in progress. Finish it first"
    );
    assert_eq!(
        told(FlowError::NoCurrentName { kind: ObjectKind::Hotfix, branch: "develop".to_string() }),
        "Cannot get release name from branch name: Could not get current hotfix name"
    );
    assert_eq!(told(FlowError::TagExists { tag: "v1.0.0".to_string() }), "Tag v1.0.0 already exists");
    assert_eq!(told(FlowError::Dirty), "Repository is dirty!");
    assert_eq!(
        told(FlowError::DirtyAfterBuild),
        "Repository became dirty after build attempt. Perhaps Cargo.lock was not a part of the last commit?"
    );
    assert_eq!(
        told(FlowError::BehindRemote { branch: "develop".to_string() }),
        "Local develop branch is behind its remote branch. Update it before creating a release."
    );
    assert_eq!(
        told(FlowError::StillBehind { branch: "master".to_string() }),
        "Local master branch is still behind its remote branch after it was pulled"
    );
    assert_eq!(
        told(FlowError::BuildFailed { message: "error".to_string() }),
        "Failed building project: error"
    );
    assert_eq!(told(FlowError::MergeFailed { message: "CONFLICT".to_string() }), "Failed merge: CONFLICT");
    assert_eq!(
        told(FlowError::RolledBack { kind: ObjectKind::Release, message: "rejected".to_string() }),
        "Failed pushing new release - Failed tag and push: rejected"
    );
    assert_eq!(
        told(FlowError::Resolve { reason: ResolveError::CannotDeduce }),
        "Could not deduce current version and no existing versioned files found"
    );
    assert_eq!(
        told(FlowError::Resolve { reason: ResolveError::NeedsChoice }),
        "Could not get bumped Cargo.toml"
    );
    assert_eq!(
        told(FlowError::Resolve { reason: ResolveError::Overflow }),
        "The version cannot grow further"
    );
    assert_eq!(told(FlowError::NoVersionFiles), "Could not find version files to bump");
    assert_eq!(
        told(FlowError::MissingBranch { branch: "develop".to_string() }),
        "branch not found: develop"
    );
    assert_eq!(told(FlowError::UnexpectedReply), "The repository gave an unexpected answer");
    assert_eq!(
        told(FlowError::NotUnderProject { path: "a b/Cargo.toml".to_string() }),
        "No relative path leads from the project to \"a b/Cargo.toml\""
    );
}

#[test]
fn failures_of_manifests_are_told_in_words() {
    let path = "x/Cargo.toml".to_string();
    let message = "expected `.`".to_string();
    assert_eq!(
        ManifestError::Parse { path: path.clone(), message: message.clone() }.to_text(),
        "Failed parsing \"x/Cargo.toml\": expected `.`"
    );
    assert_eq!(
        ManifestError::BadVersion { path: path.clone(), message: message.clone() }.to_text(),
        "Failed parsing version for \"x/Cargo.toml\": expected `.`"
    );
    assert_eq!(
        ManifestError::BadWorkspaceVersion { path: path.clone(), message }.to_text(),
        "Failed parsing workspace package version for \"x/Cargo.toml\": expected `.`"
    );
    assert_eq!(
        ManifestError::NoVersionField { path: path.clone() }.to_text(),
        "No version field found in \"x/Cargo.toml\""
    );
    assert_eq!(
        ManifestError::Overflow { path }.to_text(),
        "The version cannot grow further in \"x/Cargo.toml\""
    );
    assert_eq!(
        FlowError::Manifest { error: ManifestError::NoneFound { root: "/repo".to_string() } }.to_text(),
        "Could not find Cargo.toml files in \"/repo\""
    );
}

#[test]
fn a_stranded_release_is_told_to_stand() {
    let text = FlowError::Backend { message: "connection lost".to_string() }.to_stranded_text();
    assert_eq!(
        text,
        "The release was pushed and stands upstream, but the steps that follow it locally failed: \
         connection lost. The release is not undone; finish the local steps by hand."
    );
}
