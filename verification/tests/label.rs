use git_branch_status::repository_ext::{
    label, lookup_for, name_or, position_of, status_query, with_action, ErrorKind, Lookup,
    Position, RepoState, StatusQuery,
};

#[test]
fn clean_branch_label_is_the_branch_name() {
    let text = label(Position::Branch(Some("main".to_string())), RepoState::Clean);
    assert_eq!(text, "main");
}

#[test]
fn detached_label_is_the_short_id() {
    let text = label(Position::Detached(Some("1a2b3c4".to_string())), RepoState::Clean);
    assert_eq!(text, "1a2b3c4");
}

#[test]
fn detached_without_short_id_uses_the_sentinel() {
    assert_eq!(label(Position::Detached(None), RepoState::Clean), "HEAD (detached)");
    assert_eq!(label(Position::Detached(None), RepoState::Bisect), "HEAD (detached):bisect");
}

#[test]
fn no_head_uses_the_sentinel() {
    assert_eq!(label(Position::Branch(None), RepoState::Clean), "HEAD (no branch)");
}

#[test]
fn interactive_rebase_shows_the_rebased_branch() {
    assert_eq!(lookup_for(RepoState::RebaseInteractive, true), Lookup::RebaseHeadName);
    let text = label(Position::Rebasing("feature".to_string()), RepoState::RebaseInteractive);
    assert_eq!(text, "feature:rebase-i");
}

#[test]
fn lookup_follows_state_then_detachment() {
    assert_eq!(lookup_for(RepoState::RebaseInteractive, false), Lookup::RebaseHeadName);
    assert_eq!(lookup_for(RepoState::Clean, true), Lookup::ShortId);
    assert_eq!(lookup_for(RepoState::Rebase, true), Lookup::ShortId);
    assert_eq!(lookup_for(RepoState::RebaseMerge, true), Lookup::ShortId);
    assert_eq!(lookup_for(RepoState::Clean, false), Lookup::Shorthand);
    assert_eq!(lookup_for(RepoState::Merge, false), Lookup::Shorthand);
}

#[test]
fn every_state_has_its_tag() {
    assert_eq!(RepoState::Clean.action(), None);
    assert_eq!(RepoState::ApplyMailbox.action(), Some("am"));
    assert_eq!(RepoState::ApplyMailboxOrRebase.action(), Some("am/rebase"));
    assert_eq!(RepoState::Bisect.action(), Some("bisect"));
    assert_eq!(RepoState::CherryPick.action(), Some("cherry"));
    assert_eq!(RepoState::CherryPickSequence.action(), Some("cherry-seq"));
    assert_eq!(RepoState::Merge.action(), Some("merge"));
    assert_eq!(RepoState::Rebase.action(), Some("rebase"));
    assert_eq!(RepoState::RebaseInteractive.action(), Some("rebase-i"));
    assert_eq!(RepoState::RebaseMerge.action(), Some("rebase-m"));
    assert_eq!(RepoState::Revert.action(), Some("revert"));
    assert_eq!(RepoState::RevertSequence.action(), Some("revert-seq"));
}

#[test]
fn tag_is_joined_with_a_colon() {
    assert_eq!(with_action("main".to_string(), Some("merge")), "main:merge");
    assert_eq!(with_action("main".to_string(), None), "main");
    assert_eq!(with_action(String::new(), Some("am")), ":am");
    assert_eq!(label(Position::Branch(Some("dev".to_string())), RepoState::Merge), "dev:merge");
}

#[test]
fn name_or_prefers_the_name_found() {
    assert_eq!(name_or(Some("topic".to_string()), "else"), "topic");
    assert_eq!(name_or(None, "else"), "else");
    assert_eq!(Position::Rebasing("x".to_string()).base(), "x");
}

#[test]
fn only_unborn_and_not_found_mean_no_head() {
    assert!(ErrorKind::UnbornBranch.means_no_head());
    assert!(ErrorKind::NotFound.means_no_head());
    assert!(!ErrorKind::Other.means_no_head());
}

#[test]
fn position_keeps_the_lookup_and_the_name_found() {
    match position_of(Lookup::RebaseHeadName, Some("feature".to_string())) {
        Position::Rebasing(name) => assert_eq!(name, "feature"),
        other => panic!("unexpected position: {:?}", other),
    }
    match position_of(Lookup::ShortId, Some("1a2b3c4".to_string())) {
        Position::Detached(short) => assert_eq!(short, Some("1a2b3c4".to_string())),
        other => panic!("unexpected position: {:?}", other),
    }
    match position_of(Lookup::Shorthand, Some("main".to_string())) {
        Position::Branch(name) => assert_eq!(name, Some("main".to_string())),
        other => panic!("unexpected position: {:?}", other),
    }
}

#[test]
fn position_without_a_name_shows_a_sentinel() {
    assert_eq!(position_of(Lookup::ShortId, None).base(), "HEAD (detached)");
    assert_eq!(position_of(Lookup::Shorthand, None).base(), "HEAD (no branch)");
    assert_eq!(position_of(Lookup::RebaseHeadName, None).base(), "HEAD (no branch)");
}

#[test]
fn label_follows_state_detachment_and_name() {
    let state = RepoState::RebaseInteractive;
    let found = Some("feature".to_string());
    assert_eq!(label(position_of(lookup_for(state, true), found), state), "feature:rebase-i");
    let state = RepoState::CherryPick;
    assert_eq!(label(position_of(lookup_for(state, true), None), state), "HEAD (detached):cherry");
    let state = RepoState::Clean;
    assert_eq!(label(position_of(lookup_for(state, false), None), state), "HEAD (no branch)");
}

#[test]
fn status_query_leaves_out_what_is_not_a_change() {
    let expected =
        StatusQuery { untracked: false, ignored: false, unmodified: false, no_submodules: true };
    assert_eq!(status_query(), expected);
}
