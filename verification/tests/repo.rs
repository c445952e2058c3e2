use git_deploy::repo::{canonical_repo, container_name, container_src, file_path, repo_path};

#[test]
fn repo_path_adds_the_suffix_once() {
    assert_eq!(repo_path("/tmp/srv", "alice", "proj"), "/tmp/srv/alice/proj.git");
    assert_eq!(repo_path("/tmp/srv", "alice", "proj.git"), "/tmp/srv/alice/proj.git");
    assert_eq!(repo_path("", "o", "r"), "/o/r.git");
}

#[test]
fn file_path_is_inside_the_repository() {
    assert_eq!(file_path("/b", "o", "r", "HEAD"), "/b/o/r.git/HEAD");
    assert_eq!(
        file_path("/b", "o", "r.git", "objects/info/alternates"),
        "/b/o/r.git/objects/info/alternates"
    );
}

#[test]
fn canonical_repo_strips_one_suffix() {
    assert_eq!(canonical_repo("proj.git"), "proj");
    assert_eq!(canonical_repo("proj"), "proj");
    assert_eq!(canonical_repo("proj.git.git"), "proj.git");
    assert_eq!(canonical_repo("a.gitb.git"), "a.gitb");
    assert_eq!(canonical_repo(".git"), "");
}

#[test]
fn container_name_joins_and_replaces_dots() {
    assert_eq!(container_name("alice", "proj.git"), "alice-proj");
    assert_eq!(container_name("alice", "proj"), "alice-proj");
    assert_eq!(container_name("a.b", "my.site.git"), "a-b-my-site");
    assert_eq!(container_name("alice", "proj.git.git"), "alice-proj");
}

#[test]
fn container_src_is_the_clone_directory() {
    assert_eq!(container_src("/tmp/srv/alice/proj.git"), "/tmp/srv/alice/proj.git/clone");
}
