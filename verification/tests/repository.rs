use git2::build::CheckoutBuilder;
use git2::{IndexEntry, IndexTime, Oid, Repository, Signature, Time};
use git_branch_status::branch_status::BranchStatus;
use git_branch_status::repository_ext::{BackendError, RepositoryExt};
use std::time::{SystemTime, UNIX_EPOCH};

fn fresh_repository(name: &str) -> Repository {
    let nanos = SystemTime::now().duration_since(UNIX_EPOCH).unwrap().as_nanos();
    let path = format!("/tmp/git_branch_status_{}_{}", name, nanos);
    Repository::init(path).unwrap()
}

fn entry(path: &str, id: Oid) -> IndexEntry {
    IndexEntry {
        ctime: IndexTime::new(0, 0),
        mtime: IndexTime::new(0, 0),
        dev: 0,
        ino: 0,
        mode: 0o100644,
        uid: 0,
        gid: 0,
        file_size: 0,
        id,
        flags: 0,
        flags_extended: 0,
        path: path.as_bytes().to_vec(),
    }
}

fn stage(repo: &Repository, path: &str, content: &[u8]) {
    let mut index = repo.index().unwrap();
    index.add_frombuffer(&entry(path, Oid::ZERO_SHA1), content).unwrap();
    index.write().unwrap();
}

fn commit(repo: &Repository) -> Oid {
    let mut index = repo.index().unwrap();
    let tree = repo.find_tree(index.write_tree().unwrap()).unwrap();
    let who = Signature::new("tester", "tester@example.com", &Time::new(0, 0)).unwrap();
    let parent = match repo.head() {
        Ok(head) => Some(repo.find_commit(head.target().unwrap()).unwrap()),
        Err(_) => None,
    };
    match parent {
        Some(p) => repo.commit(Some("HEAD"), &who, &who, "change", &tree, &[&p]).unwrap(),
        None => repo.commit(Some("HEAD"), &who, &who, "change", &tree, &[]).unwrap(),
    }
}

fn write_working_tree(repo: &Repository) {
    let mut force = CheckoutBuilder::new();
    force.force();
    repo.checkout_index(None, Some(&mut force)).unwrap();
}

fn no_file() -> Result<String, String> {
    Err("no such file".to_string())
}

#[test]
fn repository_without_commits_has_no_branch() {
    let repo = fresh_repository("unborn");
    assert_eq!(repo.branch_name(no_file()).unwrap(), "HEAD (no branch)");
    assert_eq!(repo.branch_status().unwrap(), BranchStatus::NotChanged);
    assert_eq!(repo.action(), None);
}

#[test]
fn clean_repository_shows_branch_and_not_changed() {
    let repo = fresh_repository("clean");
    stage(&repo, "a.txt", b"one\n");
    commit(&repo);
    write_working_tree(&repo);
    let branch = repo.head().unwrap().shorthand().unwrap().to_string();
    assert!(!branch.is_empty());
    assert_eq!(repo.branch_name(no_file()).unwrap(), branch);
    assert_eq!(repo.branch_status().unwrap(), BranchStatus::NotChanged);
}

#[test]
fn staged_path_gives_staged() {
    let repo = fresh_repository("staged");
    stage(&repo, "a.txt", b"one\n");
    commit(&repo);
    stage(&repo, "a.txt", b"two\n");
    write_working_tree(&repo);
    assert_eq!(repo.branch_status().unwrap(), BranchStatus::Staged);
}

#[test]
fn modified_tracked_path_gives_unstaged() {
    let repo = fresh_repository("unstaged");
    stage(&repo, "a.txt", b"one\n");
    commit(&repo);
    write_working_tree(&repo);
    stage(&repo, "a.txt", b"two\n");
    commit(&repo);
    assert_eq!(repo.branch_status().unwrap(), BranchStatus::Unstaged);
}

#[test]
fn conflicted_path_dominates_staged_paths() {
    let repo = fresh_repository("conflict");
    stage(&repo, "a.txt", b"one\n");
    let first = repo.find_commit(commit(&repo)).unwrap();
    stage(&repo, "a.txt", b"ours\n");
    commit(&repo);
    write_working_tree(&repo);
    let branch = repo.head().unwrap().shorthand().unwrap().to_string();

    let blob = repo.blob(b"theirs\n").unwrap();
    let mut builder = repo.treebuilder(None).unwrap();
    builder.insert("a.txt", blob, 0o100644).unwrap();
    let tree = repo.find_tree(builder.write().unwrap()).unwrap();
    let who = Signature::new("tester", "tester@example.com", &Time::new(0, 0)).unwrap();
    let theirs = repo
        .commit(Some("refs/heads/other"), &who, &who, "theirs", &tree, &[&first])
        .unwrap();
    let theirs = repo.find_annotated_commit(theirs).unwrap();
    repo.merge(&[&theirs], None, None).unwrap();
    stage(&repo, "b.txt", b"new\n");

    assert_eq!(repo.branch_status().unwrap(), BranchStatus::Conflicted);
    assert_eq!(repo.action(), Some("merge"));
    assert_eq!(repo.branch_name(no_file()).unwrap(), format!("{}:merge", branch));
}

#[test]
fn detached_head_shows_short_commit_id() {
    let repo = fresh_repository("detached");
    stage(&repo, "a.txt", b"one\n");
    let id = commit(&repo);
    write_working_tree(&repo);
    repo.set_head_detached(id).unwrap();
    let short = repo.find_object(id, None).unwrap().short_id().unwrap();
    let label = repo.branch_name(no_file()).unwrap();
    assert_eq!(label, short.as_str().unwrap());
    assert!(label.len() < id.to_string().len());
    assert!(id.to_string().starts_with(&label));
    assert_eq!(repo.to_short_oid(id).unwrap(), Some(label));
}

#[test]
fn short_id_of_unknown_object_fails() {
    let repo = fresh_repository("unknown");
    let id = Oid::from_str("0123456789abcdef0123456789abcdef01234567").unwrap();
    assert!(matches!(repo.to_short_oid(id), Err(BackendError::QueryFailed(_))));
}

#[test]
fn rebase_head_name_resolves_to_short_branch_name() {
    let repo = fresh_repository("rebase");
    stage(&repo, "a.txt", b"one\n");
    let id = commit(&repo);
    repo.branch("feature", &repo.find_commit(id).unwrap(), false).unwrap();
    let name = repo.rebase_i_head_name(Ok("refs/heads/feature\n".to_string())).unwrap();
    assert_eq!(name, "feature");
}

#[test]
fn rebase_head_name_hands_on_failures() {
    let repo = fresh_repository("rebase_fail");
    match repo.rebase_i_head_name(Err("cannot read".to_string())) {
        Err(BackendError::SideFileUnreadable(message)) => assert_eq!(message, "cannot read"),
        other => panic!("unexpected outcome: {:?}", other),
    }
    match repo.rebase_i_head_name(Ok("refs/heads/absent\n".to_string())) {
        Err(BackendError::QueryFailed(e)) => assert_eq!(e.code(), git2::ErrorCode::NotFound),
        other => panic!("unexpected outcome: {:?}", other),
    }
}

#[test]
fn untracked_file_leaves_the_status_unchanged() {
    let repo = fresh_repository("untracked");
    stage(&repo, "a.txt", b"one\n");
    commit(&repo);
    stage(&repo, "scratch.txt", b"notes\n");
    write_working_tree(&repo);
    assert_eq!(repo.branch_status().unwrap(), BranchStatus::Staged);

    let mut index = repo.index().unwrap();
    index.remove_path(std::path::Path::new("scratch.txt")).unwrap();
    index.write().unwrap();
    let all = repo.statuses(None).unwrap();
    assert!(all.iter().any(|e| e.status().is_wt_new()));
    assert_eq!(repo.branch_status().unwrap(), BranchStatus::NotChanged);
}

#[test]
fn head_name_is_trimmed_of_white_space_at_both_ends() {
    let repo = fresh_repository("trim");
    stage(&repo, "a.txt", b"one\n");
    let id = commit(&repo);
    repo.branch("feature", &repo.find_commit(id).unwrap(), false).unwrap();
    let white = [
        '\u{9}', '\u{A}', '\u{B}', '\u{C}', '\u{D}', ' ', '\u{85}', '\u{A0}', '\u{1680}',
        '\u{2000}', '\u{2005}', '\u{200A}', '\u{2028}', '\u{2029}', '\u{202F}', '\u{205F}',
        '\u{3000}',
    ];
    for c in white.iter() {
        let content = format!("{}{}refs/heads/feature{}\n", c, c, c);
        assert_eq!(repo.rebase_i_head_name(Ok(content)).unwrap(), "feature");
    }
    let other = ['\u{8}', '\u{1C}', '\u{1F}', '\u{180E}', '\u{200B}', '\u{FEFF}', 'x'];
    for c in other.iter() {
        let leading = format!("{}refs/heads/feature\n", c);
        assert!(repo.rebase_i_head_name(Ok(leading)).is_err());
        let trailing = format!("refs/heads/feature{} \n", c);
        assert!(repo.rebase_i_head_name(Ok(trailing)).is_err());
    }
    let inner = "refs/heads/feature\nrefs/heads/other\n".to_string();
    assert!(repo.rebase_i_head_name(Ok(inner)).is_err());
}
