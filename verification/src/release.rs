//! Releases of a service's repository: its tags, newest first, and checking
//! one out.
use vstd::prelude::*;

use crate::effects::{CallV, ProcessCall};
use crate::env::{lines, lines_of, views};
use crate::layout::repo_dir;
use crate::session::push_str;
use crate::text::{concat3, trim, trim_str};

verus! {

/// `git tag --sort=-creatordate` in the repository, captured: its tags, the
/// newest first, one per line.
pub open spec fn tag_list_call(name: Seq<char>) -> CallV {
    CallV {
        program: "git"@,
        args: seq!["tag"@, "--sort=-creatordate"@],
        current_dir: Some(repo_dir(name)),
        env: None,
        capture: true,
        expect: Some("Failed to list the repository's tags"@),
    }
}

/// `git checkout <tag>` in the repository, its output shown.
pub open spec fn checkout_call(name: Seq<char>, tag: Seq<char>) -> CallV {
    CallV {
        program: "git"@,
        args: seq!["checkout"@, tag],
        current_dir: Some(repo_dir(name)),
        env: None,
        capture: false,
        expect: Some("Failed to execute git checkout"@),
    }
}

/// `git fetch --tags` in the repository, its output shown.
pub open spec fn fetch_call(name: Seq<char>) -> CallV {
    CallV {
        program: "git"@,
        args: seq!["fetch"@, "--tags"@],
        current_dir: Some(repo_dir(name)),
        env: None,
        capture: false,
        expect: Some("Failed to execute git fetch"@),
    }
}

/// The latest release in the listing of the tags: its first line, trimmed,
/// where that is not empty.
pub open spec fn latest_tag(listing: Seq<char>) -> Option<Seq<char>> {
    let ls = lines(listing);
    if ls.len() > 0 && trim(ls[0]).len() > 0 {
        Some(trim(ls[0]))
    } else {
        None
    }
}

/// The latest release in the listing of the tags (see `latest_tag`).
pub fn latest_release_tag(listing: &str) -> (res: Option<String>)
    ensures
        match res {
            Some(t) => latest_tag(listing@) == Some(t@),
            None => latest_tag(listing@) is None,
        },
{
    let ls = lines_of(listing);
    if ls.len() == 0 {
        return None;
    }
    let first = trim_str(ls[0].as_str());
    assert(views(ls@)[0] == ls@[0]@);
    if first.as_str().is_empty() {
        None
    } else {
        Some(first)
    }
}

/// A call of `git` with `args` in the repository `repo`.
fn git_in(repo: &str, args: Vec<String>, capture: bool, expect: &str) -> (res: ProcessCall)
    ensures
        res@ == (CallV {
            program: "git"@,
            args: views(args@),
            current_dir: Some(repo@),
            env: None,
            capture,
            expect: Some(expect@),
        }),
{
    ProcessCall {
        program: String::from_str("git"),
        args,
        current_dir: Some(String::from_str(repo)),
        env: None,
        capture,
        expect: Some(String::from_str(expect)),
    }
}

/// The repository of `name`.
fn repo_of(name: &str) -> (res: String)
    ensures
        res@ == repo_dir(name@),
{
    concat3("/home/", name, "/repo")
}

/// The call that lists the tags (see `tag_list_call`).
pub fn make_tag_list_call(name: &str) -> (res: ProcessCall)
    ensures
        res@ == tag_list_call(name@),
{
    let repo = repo_of(name);
    let mut args: Vec<String> = Vec::new();
    push_str(&mut args, "tag");
    push_str(&mut args, "--sort=-creatordate");
    assert(views(args@) =~= seq!["tag"@, "--sort=-creatordate"@]);
    git_in(repo.as_str(), args, true, "Failed to list the repository's tags")
}

/// The call that checks `tag` out (see `checkout_call`).
pub fn make_checkout_call(name: &str, tag: &str) -> (res: ProcessCall)
    ensures
        res@ == checkout_call(name@, tag@),
{
    let repo = repo_of(name);
    let mut args: Vec<String> = Vec::new();
    push_str(&mut args, "checkout");
    push_str(&mut args, tag);
    assert(views(args@) =~= seq!["checkout"@, tag@]);
    git_in(repo.as_str(), args, false, "Failed to execute git checkout")
}

/// The call that fetches the tags (see `fetch_call`).
pub fn make_fetch_call(name: &str) -> (res: ProcessCall)
    ensures
        res@ == fetch_call(name@),
{
    let repo = repo_of(name);
    let mut args: Vec<String> = Vec::new();
    push_str(&mut args, "fetch");
    push_str(&mut args, "--tags");
    assert(views(args@) =~= seq!["fetch"@, "--tags"@]);
    git_in(repo.as_str(), args, false, "Failed to execute git fetch")
}

} // verus!
