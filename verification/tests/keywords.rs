use commit_templater::ids::{ChangeId, CommitId};
use commit_templater::keywords::{
    extract_git_head, extract_working_copies, is_current_working_copy, is_divergent, is_empty,
    is_hidden, is_root, remote_or_empty, short_len, shortest_len, RefNameFilter,
};
use commit_templater::ref_names::RefName;
use commit_templater::repo::{
    Commit, MergedTreeId, RefTarget, RepoView, Signature, Timestamp, WorkingCopy,
};

fn id(byte: u8) -> CommitId {
    CommitId::new(vec![byte, byte])
}

fn signature() -> Signature {
    Signature {
        name: "A".to_string(),
        email: "a@example.com".to_string(),
        timestamp: Timestamp { millis_since_epoch: 0, tz_offset: 0 },
    }
}

fn commit(byte: u8, tree: u8) -> Commit {
    Commit {
        id: id(byte),
        change_id: ChangeId::new(vec![byte]),
        description: String::new(),
        tree_id: MergedTreeId { terms: vec![vec![tree]] },
        author: signature(),
        committer: signature(),
    }
}

fn view_with(workspaces: &[(&str, u8)], git_head: RefTarget) -> RepoView {
    RepoView {
        branches: vec![],
        tags: vec![],
        git_refs: vec![],
        git_head,
        wc_commit_ids: workspaces
            .iter()
            .map(|(w, c)| WorkingCopy { workspace_id: w.to_string(), commit_id: id(*c) })
            .collect(),
    }
}

fn name(name: &str, remote: Option<&str>, conflict: bool, synced: bool) -> RefName {
    RefName { name: name.to_string(), remote: remote.map(|r| r.to_string()), conflict, synced }
}

#[test]
fn working_copies_is_empty_without_workspaces() {
    let view = view_with(&[], RefTarget::absent());
    assert_eq!(extract_working_copies(&view, &commit(1, 0)), "");
}

#[test]
fn working_copies_is_empty_with_a_single_workspace() {
    let view = view_with(&[("default", 1)], RefTarget::absent());
    assert_eq!(extract_working_copies(&view, &commit(1, 0)), "");
}

#[test]
fn working_copies_lists_the_workspaces_at_the_commit_sorted() {
    let view = view_with(&[("second", 1), ("default", 1), ("third", 2)], RefTarget::absent());
    assert_eq!(extract_working_copies(&view, &commit(1, 0)), "default@ second@");
    assert_eq!(extract_working_copies(&view, &commit(2, 0)), "third@");
    assert_eq!(extract_working_copies(&view, &commit(3, 0)), "");
}

#[test]
fn working_copies_sorts_by_code_point() {
    let view = view_with(&[("b", 1), ("B", 1), ("a10", 1), ("a2", 1), ("", 1)], RefTarget::absent());
    assert_eq!(extract_working_copies(&view, &commit(1, 0)), "@ B@ a10@ a2@ b@");
}

#[test]
fn current_working_copy_is_the_commit_of_the_workspace() {
    let view = view_with(&[("default", 1), ("other", 2)], RefTarget::absent());
    assert!(is_current_working_copy(&view, "default", &commit(1, 0)));
    assert!(!is_current_working_copy(&view, "default", &commit(2, 0)));
    assert!(is_current_working_copy(&view, "other", &commit(2, 0)));
    assert!(!is_current_working_copy(&view, "missing", &commit(1, 0)));
}

#[test]
fn git_head_is_listed_for_the_commit_it_points_to() {
    let view = view_with(&[], RefTarget::normal(id(1)));
    assert_eq!(
        extract_git_head(&view, &commit(1, 0)),
        vec![name("HEAD", Some("git"), false, false)]
    );
}

#[test]
fn git_head_is_not_listed_for_any_other_commit() {
    let view = view_with(&[], RefTarget::normal(id(1)));
    assert!(extract_git_head(&view, &commit(2, 0)).is_empty());
    let absent = view_with(&[], RefTarget::absent());
    assert!(extract_git_head(&absent, &commit(1, 0)).is_empty());
}

#[test]
fn conflicted_git_head_is_listed_as_conflicted_for_each_side() {
    let target = RefTarget { terms: vec![Some(id(1)), Some(id(0)), Some(id(2))] };
    let view = view_with(&[], target);
    let expected = vec![name("HEAD", Some("git"), true, false)];
    assert_eq!(extract_git_head(&view, &commit(1, 0)), expected);
    assert_eq!(extract_git_head(&view, &commit(2, 0)), expected);
    assert!(extract_git_head(&view, &commit(0, 0)).is_empty());
}

#[test]
fn divergent_needs_more_than_one_visible_commit() {
    assert!(!is_divergent(&None));
    assert!(!is_divergent(&Some(vec![])));
    assert!(!is_divergent(&Some(vec![id(1)])));
    assert!(is_divergent(&Some(vec![id(1), id(2)])));
}

#[test]
fn hidden_is_not_among_the_visible_commits() {
    assert!(is_hidden(&None, &commit(1, 0)));
    assert!(is_hidden(&Some(vec![]), &commit(1, 0)));
    assert!(is_hidden(&Some(vec![id(2)]), &commit(1, 0)));
    assert!(!is_hidden(&Some(vec![id(2), id(1)]), &commit(1, 0)));
}

#[test]
fn empty_with_one_parent_compares_with_the_tree_of_the_parent() {
    let child = commit(2, 7);
    assert_eq!(is_empty(&child, &vec![commit(1, 7)], None), Some(true));
    assert_eq!(is_empty(&child, &vec![commit(1, 8)], None), Some(false));
    let merged = MergedTreeId { terms: vec![vec![7]] };
    assert_eq!(is_empty(&child, &vec![commit(1, 8)], Some(&merged)), Some(false));
}

#[test]
fn empty_with_several_parents_compares_with_the_merge_of_their_trees() {
    let child = commit(3, 7);
    let parents = vec![commit(1, 5), commit(2, 6)];
    assert_eq!(is_empty(&child, &parents, Some(&MergedTreeId { terms: vec![vec![7]] })), Some(true));
    assert_eq!(is_empty(&child, &parents, Some(&MergedTreeId { terms: vec![vec![5]] })), Some(false));
    assert_eq!(is_empty(&child, &parents, None), None);
}

#[test]
fn root_commit_is_root_and_empty_against_the_merge_of_no_trees() {
    let root = commit(0, 0);
    assert!(is_root(&root, &id(0)));
    assert!(!is_root(&commit(1, 0), &id(0)));
    let empty_tree = MergedTreeId { terms: vec![vec![0]] };
    assert_eq!(is_empty(&root, &vec![], Some(&empty_tree)), Some(true));
    let other_tree = MergedTreeId { terms: vec![vec![9]] };
    assert_eq!(is_empty(&root, &vec![], Some(&other_tree)), Some(false));
}

#[test]
fn tree_ids_are_the_same_when_all_terms_are() {
    let tree = |terms: &[u8]| MergedTreeId { terms: terms.iter().map(|t| vec![*t]).collect() };
    assert!(tree(&[1]).same(&tree(&[1])));
    assert!(!tree(&[1]).same(&tree(&[2])));
    assert!(!tree(&[1]).same(&tree(&[1, 2, 3])));
    assert!(tree(&[1, 2, 3]).same(&tree(&[1, 2, 3])));
    assert!(!tree(&[1, 2, 3]).same(&tree(&[1, 2, 4])));
    assert!(!MergedTreeId { terms: vec![vec![1, 2]] }.same(&MergedTreeId { terms: vec![vec![1]] }));
}

#[test]
fn short_len_defaults_to_twelve_and_takes_no_negative_number() {
    assert_eq!(short_len(None), 12);
    assert_eq!(short_len(Some(0)), 0);
    assert_eq!(short_len(Some(8)), 8);
    assert_eq!(short_len(Some(-1)), 0);
    assert_eq!(short_len(Some(i64::MIN)), 0);
}

#[test]
fn shortest_len_defaults_to_zero_and_takes_no_negative_number() {
    assert_eq!(shortest_len(None), 0);
    assert_eq!(shortest_len(Some(5)), 5);
    assert_eq!(shortest_len(Some(-5)), 0);
}

#[test]
fn filters_keep_names_in_order() {
    let names = vec![
        name("a", None, false, true),
        name("a", Some("origin"), false, true),
        name("b", None, false, false),
        name("b", Some("origin"), false, false),
    ];
    assert_eq!(
        RefNameFilter::LocalOrUnsynced.apply(&names),
        vec![names[0].duplicate(), names[2].duplicate(), names[3].duplicate()]
    );
    assert_eq!(
        RefNameFilter::Local.apply(&names),
        vec![names[0].duplicate(), names[2].duplicate()]
    );
    assert_eq!(
        RefNameFilter::Remote.apply(&names),
        vec![names[1].duplicate(), names[3].duplicate()]
    );
    assert_eq!(RefNameFilter::All.apply(&names), names);
    assert!(RefNameFilter::All.apply(&[]).is_empty());
}

#[test]
fn remote_of_a_local_name_is_empty() {
    assert_eq!(remote_or_empty(&name("a", None, false, true)), "");
    assert_eq!(remote_or_empty(&name("a", Some("origin"), false, true)), "origin");
}
