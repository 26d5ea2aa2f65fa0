//! The command lines and ref names by which requests are carried out.

use crate::flow::{Request, RequestView};
use crate::text::{joined, joined4, quoted, quoted_text, same_text, strip_prefix};
use vstd::prelude::*;

verus! {

/// The command line that carries out a request, for the requests that are
/// carried out by a command of their own: most by `git`, the check of the
/// project by the command that it names. A pull is run on the branch that is
/// to be pulled.
pub open spec fn command_text(request: RequestView) -> Option<Seq<char>> {
    match request {
        RequestView::Merge { branch, message } => Some(
            "git merge "@ + branch + " -m "@ + quoted_text(message),
        ),
        RequestView::AbortMerge => Some("git merge --abort"@),
        RequestView::DeleteRemoteBranch { remote, branch } => Some(
            "git push "@ + remote + " :"@ + branch,
        ),
        RequestView::CreateTag { name } => Some("git tag -a -m "@ + name + " "@ + name),
        RequestView::DeleteTag { name } => Some("git tag -d "@ + name),
        RequestView::CommitAll { message } => Some("git commit -a -m "@ + quoted_text(message)),
        RequestView::Push { source, target, track } => Some(
            (if track {
                "git push -u origin "@
            } else {
                "git push origin "@
            }) + source + ":"@ + target,
        ),
        RequestView::PushTags => Some("git push --tags"@),
        RequestView::Pull { ff_only, .. } => Some(
            if ff_only {
                "git pull --ff-only"@
            } else {
                "git pull "@
            },
        ),
        RequestView::TrackRemote { branch } => Some("git branch "@ + branch + " origin/"@ + branch),
        RequestView::Verify { command } => Some(command),
        _ => None,
    }
}

/// The command line that fetches from a remote.
pub open spec fn fetch_text(remote: Seq<char>) -> Seq<char> {
    "git fetch "@ + remote
}

/// What is reported where a command failed: the command and what it wrote to
/// its standard error, both quoted.
pub open spec fn failure_text(command: Seq<char>, stderr: Seq<char>) -> Seq<char> {
    "Git failed: command "@ + quoted_text(command) + " failed: "@ + quoted_text(stderr)
}

/// The name of the ref of a local branch.
pub open spec fn head_text(branch: Seq<char>) -> Seq<char> {
    "refs/heads/"@ + branch
}

/// The local branch that a ref names, where it names one.
pub open spec fn branch_of_head(head: Seq<char>) -> Option<Seq<char>> {
    if "refs/heads/"@.is_prefix_of(head) {
        Some(head.skip("refs/heads/"@.len() as int))
    } else {
        None
    }
}

/// The command line that carries out a request, or `None` for a request
/// that is not carried out by a command of its own.
pub fn command_line(request: &Request) -> (r: Option<String>)
    ensures
        r.deep_view() == command_text(request@),
{
    match request {
        Request::Merge { branch, message } => {
            let message = quoted(message.as_str());
            Some(joined4("git merge ", branch.as_str(), " -m ", message.as_str()))
        },
        Request::AbortMerge => Some(String::from_str("git merge --abort")),
        Request::DeleteRemoteBranch { remote, branch } => Some(
            joined4("git push ", remote.as_str(), " :", branch.as_str()),
        ),
        Request::CreateTag { name } => Some(joined4("git tag -a -m ", name.as_str(), " ", name.as_str())),
        Request::DeleteTag { name } => Some(joined("git tag -d ", name.as_str())),
        Request::CommitAll { message } => {
            let message = quoted(message.as_str());
            Some(joined("git commit -a -m ", message.as_str()))
        },
        Request::Push { source, target, track } => {
            if *track {
                Some(joined4("git push -u origin ", source.as_str(), ":", target.as_str()))
            } else {
                Some(joined4("git push origin ", source.as_str(), ":", target.as_str()))
            }
        },
        Request::PushTags => Some(String::from_str("git push --tags")),
        Request::Pull { ff_only, .. } => {
            if *ff_only {
                Some(String::from_str("git pull --ff-only"))
            } else {
                Some(String::from_str("git pull "))
            }
        },
        Request::TrackRemote { branch } => Some(
            joined4("git branch ", branch.as_str(), " origin/", branch.as_str()),
        ),
        Request::Verify { command } => Some(command.clone()),
        _ => None,
    }
}

/// The command line that fetches from a remote.
pub fn fetch_command(remote: &str) -> (r: String)
    ensures
        r@ == fetch_text(remote@),
{
    joined("git fetch ", remote)
}

/// What is reported where a command failed.
pub fn failure_message(command: &str, stderr: &str) -> (r: String)
    ensures
        r@ == failure_text(command@, stderr@),
{
    let command = quoted(command);
    let stderr = quoted(stderr);
    joined4("Git failed: command ", command.as_str(), " failed: ", stderr.as_str())
}

/// The name of the ref of a local branch.
pub fn head_ref(branch: &str) -> (r: String)
    ensures
        r@ == head_text(branch@),
{
    joined("refs/heads/", branch)
}

/// The local branch that a ref names, or `None` where it names none.
pub fn current_branch_name(head: &str) -> (r: Option<String>)
    ensures
        r.deep_view() == branch_of_head(head@),
{
    strip_prefix(head, "refs/heads/")
}

/// Whether `name` is among `tags`.
pub fn has_tag(tags: &Vec<String>, name: &str) -> (r: bool)
    ensures
        r == tags.deep_view().contains(name@),
{
    let mut i: usize = 0;
    while i < tags.len()
        invariant
            i <= tags.len(),
            forall|j: int| 0 <= j < i ==> tags.deep_view()[j] != name@,
        decreases tags.len() - i,
    {
        if same_text(tags[i].as_str(), name) {
            assert(tags.deep_view()[i as int] == name@);
            return true;
        }
        i += 1;
    }
    false
}

} // verus!
