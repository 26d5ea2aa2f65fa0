use pargit::flow::Request;
use pargit::git::{
    command_line, current_branch_name, failure_message, fetch_command, has_tag, head_ref,
};

fn line(request: Request) -> Option<String> {
    command_line(&request)
}

#[test]
fn requests_that_git_carries_out_have_a_command_line() {
    assert_eq!(
        line(Request::Merge { branch: "feature/x".to_string(), message: "Merge feature/x".to_string() }),
        Some("git merge feature/x -m \"Merge feature/x\"".to_string())
    );
    assert_eq!(
        line(Request::Merge { branch: "b".to_string(), message: "say \"hi\"\\now".to_string() }),
        Some("git merge b -m \"say \\\"hi\\\"\\\\now\"".to_string())
    );
    assert_eq!(
        line(Request::DeleteRemoteBranch { remote: "origin".to_string(), branch: "feature/x".to_string() }),
        Some("git push origin :feature/x".to_string())
    );
    assert_eq!(
        line(Request::CreateTag { name: "v1.2.0".to_string() }),
        Some("git tag -a -m v1.2.0 v1.2.0".to_string())
    );
    assert_eq!(line(Request::DeleteTag { name: "v1.2.0".to_string() }), Some("git tag -d v1.2.0".to_string()));
    assert_eq!(
        line(Request::CommitAll { message: "pargit: Bump version".to_string() }),
        Some("git commit -a -m \"pargit: Bump version\"".to_string())
    );
    assert_eq!(
        line(Request::Push { source: "feature/x".to_string(), target: "feature/x".to_string(), track: true }),
        Some("git push -u origin feature/x:feature/x".to_string())
    );
    assert_eq!(
        line(Request::Push { source: "tmp".to_string(), target: "master".to_string(), track: false }),
        Some("git push origin tmp:master".to_string())
    );
    assert_eq!(line(Request::PushTags), Some("git push --tags".to_string()));
    assert_eq!(line(Request::AbortMerge), Some("git merge --abort".to_string()));
    assert_eq!(
        line(Request::Pull { branch: "develop".to_string(), ff_only: true }),
        Some("git pull --ff-only".to_string())
    );
    assert_eq!(
        line(Request::Pull { branch: "develop".to_string(), ff_only: false }),
        Some("git pull ".to_string())
    );
    assert_eq!(
        line(Request::TrackRemote { branch: "master".to_string() }),
        Some("git branch master origin/master".to_string())
    );
    assert_eq!(
        line(Request::Verify { command: "cargo check".to_string() }),
        Some("cargo check".to_string())
    );
}

#[test]
fn requests_that_git_does_not_carry_out_have_none() {
    assert_eq!(line(Request::CurrentBranch), None);
    assert_eq!(line(Request::IsDirty), None);
    assert_eq!(line(Request::ListTags), None);
    assert_eq!(line(Request::ReadManifests), None);
    assert_eq!(line(Request::FindBranch { name: "x".to_string() }), None);
    assert_eq!(line(Request::SwitchTo { branch: "x".to_string() }), None);
    assert_eq!(line(Request::DeleteBranch { name: "x".to_string() }), None);
    assert_eq!(line(Request::ReadFile { path: "x".to_string() }), None);
}

#[test]
fn fetch_and_failure_are_worded() {
    assert_eq!(fetch_command("origin"), "git fetch origin");
    assert_eq!(
        failure_message("git push", "fatal: no\n"),
        "Git failed: command \"git push\" failed: \"fatal: no\\n\""
    );
}

#[test]
fn refs_name_branches() {
    assert_eq!(head_ref("feature/x"), "refs/heads/feature/x");
    assert_eq!(current_branch_name("refs/heads/feature/x"), Some("feature/x".to_string()));
    assert_eq!(current_branch_name("refs/heads/"), Some("".to_string()));
    assert_eq!(current_branch_name("refs/tags/v1"), None);
    assert_eq!(current_branch_name("HEAD"), None);
}

#[test]
fn a_tag_is_found_among_the_tags() {
    let tags = vec!["v1.0.0".to_string(), "v1.1.0".to_string()];
    assert!(has_tag(&tags, "v1.1.0"));
    assert!(has_tag(&tags, "v1.0.0"));
    assert!(!has_tag(&tags, "v1.1"));
    assert!(!has_tag(&Vec::new(), "v1.0.0"));
}
