//! Where a repository lives on disk and what its build is called.
//!
//! The bare repository of owner `O` and repository `R` is the directory
//! `<base>/<O>/<R>.git`, whether or not the request wrote the `.git`; its
//! working copy is the directory `clone` inside it.
use vstd::prelude::*;
use vstd::string::StringExecFns;
use crate::text::{drop_tail, ends_with, replace, replace_char, trim_end, trim_end_matches};

verus! {

/// The directory name of a repository: `repo`, with `.git` added unless it
/// ends so.
pub open spec fn bare_name(repo: Seq<char>) -> Seq<char> {
    if ".git"@.is_suffix_of(repo) {
        repo
    } else {
        repo + ".git"@
    }
}

/// The path of the bare repository.
pub open spec fn bare_path(base: Seq<char>, owner: Seq<char>, repo: Seq<char>) -> Seq<char> {
    base + "/"@ + owner + "/"@ + bare_name(repo)
}

/// The path of a file inside the bare repository.
pub open spec fn path_within(
    base: Seq<char>,
    owner: Seq<char>,
    repo: Seq<char>,
    file: Seq<char>,
) -> Seq<char> {
    bare_path(base, owner, repo) + "/"@ + file
}

/// The name under which a repository is compared: `repo` without one
/// trailing `.git`.
pub open spec fn canonical_name(repo: Seq<char>) -> Seq<char> {
    if ".git"@.is_suffix_of(repo) {
        drop_tail(repo, ".git"@.len())
    } else {
        repo
    }
}

/// The name of a repository's container: owner and repository joined by a
/// hyphen, the repository without any trailing `.git`, and every dot turned
/// into a hyphen.
pub open spec fn container_name_of(owner: Seq<char>, repo: Seq<char>) -> Seq<char> {
    replace_char(owner + "-"@ + trim_end(repo, ".git"@), '.', '-')
}

/// The working copy that belongs to the bare repository at `path`.
pub open spec fn working_copy_of(path: Seq<char>) -> Seq<char> {
    path + "/clone"@
}

/// The path of the bare repository of `owner` and `repo` under `base`.
pub fn repo_path(base: &str, owner: &str, repo: &str) -> (path: String)
    ensures
        path@ == bare_path(base@, owner@, repo@),
{
    let mut path = String::from_str(base);
    path.append("/");
    path.append(owner);
    path.append("/");
    path.append(repo);
    if !ends_with(repo, ".git") {
        path.append(".git");
    }
    assert(path@ =~= bare_path(base@, owner@, repo@));
    path
}

/// The path of `file` inside the bare repository of `owner` and `repo`.
pub fn file_path(base: &str, owner: &str, repo: &str, file: &str) -> (path: String)
    ensures
        path@ == path_within(base@, owner@, repo@, file@),
{
    let mut path = repo_path(base, owner, repo);
    path.append("/");
    path.append(file);
    path
}

/// `repo` without one trailing `.git`.
pub fn canonical_repo(repo: &str) -> (name: String)
    ensures
        name@ == canonical_name(repo@),
{
    if ends_with(repo, ".git") {
        let chars = crate::text::chars_of(repo);
        let suffix = crate::text::chars_of(".git");
        crate::text::string_of(chars.as_slice(), 0, chars.len() - suffix.len())
    } else {
        String::from_str(repo)
    }
}

/// The container name for `owner` and `repo`.
pub fn container_name(owner: &str, repo: &str) -> (name: String)
    ensures
        name@ == container_name_of(owner@, repo@),
{
    let mut joined = String::from_str(owner);
    joined.append("-");
    let trimmed = trim_end_matches(repo, ".git");
    joined.append(trimmed.as_str());
    assert(joined@ =~= owner@ + "-"@ + trim_end(repo@, ".git"@));
    replace(joined.as_str(), '.', '-')
}

/// The working copy of the bare repository at `path`.
pub fn container_src(path: &str) -> (src: String)
    ensures
        src@ == working_copy_of(path@),
{
    let mut src = String::from_str(path);
    src.append("/clone");
    src
}

} // verus!
