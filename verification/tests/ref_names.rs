use commit_templater::ids::CommitId;
use commit_templater::ref_names::{
    build_branches_index, build_ref_names_index, RefName, RefNamesIndex,
};
use commit_templater::repo::{
    contains_id, Branch, NamedRef, RefTarget, RemoteRef, RemoteRefState, RepoView,
};

fn id(byte: u8) -> CommitId {
    CommitId::new(vec![byte, byte])
}

fn conflicted(removed: u8, added: &[u8]) -> RefTarget {
    let mut terms = vec![Some(id(added[0]))];
    for a in &added[1..] {
        terms.push(Some(id(removed)));
        terms.push(Some(id(*a)));
    }
    RefTarget { terms }
}

fn remote(name: &str, target: RefTarget, state: RemoteRefState) -> RemoteRef {
    RemoteRef { remote_name: name.to_string(), target, state }
}

fn branch(name: &str, local_target: RefTarget, remote_refs: Vec<RemoteRef>) -> Branch {
    Branch { name: name.to_string(), local_target, remote_refs }
}

fn view_of(branches: Vec<Branch>) -> RepoView {
    RepoView {
        branches,
        tags: vec![],
        git_refs: vec![],
        git_head: RefTarget::absent(),
        wc_commit_ids: vec![],
    }
}

fn name(name: &str, remote: Option<&str>, conflict: bool, synced: bool) -> RefName {
    RefName { name: name.to_string(), remote: remote.map(|r| r.to_string()), conflict, synced }
}

#[test]
fn ref_name_is_local_exactly_when_it_has_no_remote() {
    let local = name("main", None, false, true);
    let on_remote = name("main", Some("origin"), false, true);
    assert!(local.is_local());
    assert!(!local.is_remote());
    assert!(on_remote.is_remote());
    assert!(!on_remote.is_local());
    assert_eq!(local.duplicate(), local);
    assert_eq!(on_remote.duplicate(), on_remote);
}

#[test]
fn absent_target_points_nowhere() {
    let target = RefTarget::absent();
    assert!(!target.is_present());
    assert!(!target.has_conflict());
    assert!(target.added_ids().is_empty());
    assert_eq!(target.terms, vec![None]);
}

#[test]
fn normal_target_points_to_its_commit() {
    let target = RefTarget::normal(id(7));
    assert!(target.is_present());
    assert!(!target.has_conflict());
    assert_eq!(target.added_ids(), vec![id(7)]);
}

#[test]
fn conflicted_target_lists_its_added_commits_in_order() {
    let target = conflicted(1, &[2, 3, 4]);
    assert!(target.is_present());
    assert!(target.has_conflict());
    assert_eq!(target.added_ids(), vec![id(2), id(3), id(4)]);
}

#[test]
fn added_ids_skip_missing_terms_and_removed_ones() {
    let target = RefTarget { terms: vec![None, Some(id(1)), Some(id(2))] };
    assert!(target.is_present());
    assert!(target.has_conflict());
    assert_eq!(target.added_ids(), vec![id(2)]);
}

#[test]
fn targets_are_the_same_when_all_terms_are() {
    assert!(RefTarget::normal(id(1)).same(&RefTarget::normal(id(1))));
    assert!(!RefTarget::normal(id(1)).same(&RefTarget::normal(id(2))));
    assert!(!RefTarget::normal(id(1)).same(&RefTarget::absent()));
    assert!(RefTarget::absent().same(&RefTarget::absent()));
    assert!(conflicted(1, &[2, 3]).same(&conflicted(1, &[2, 3])));
    assert!(!conflicted(1, &[2, 3]).same(&conflicted(9, &[2, 3])));
    assert!(!conflicted(1, &[2, 3]).same(&RefTarget::normal(id(2))));
}

#[test]
fn contains_id_finds_listed_commits_only() {
    let ids = vec![id(1), id(2)];
    assert!(contains_id(&ids, &id(2)));
    assert!(!contains_id(&ids, &id(3)));
    assert!(!contains_id(&vec![], &id(1)));
}

#[test]
fn empty_index_has_no_names() {
    let index = RefNamesIndex::new();
    assert!(index.get(&id(1)).is_empty());
    assert!(RefNamesIndex::default().get(&id(1)).is_empty());
}

#[test]
fn index_keeps_names_in_the_order_they_came() {
    let mut index = RefNamesIndex::new();
    index.insert(&vec![id(1)], name("b", None, false, true));
    index.insert(&vec![id(2)], name("x", None, false, true));
    index.insert(&vec![id(1)], name("a", None, false, true));
    assert_eq!(
        index.get(&id(1)).to_vec(),
        vec![name("b", None, false, true), name("a", None, false, true)]
    );
    assert_eq!(index.get(&id(2)).to_vec(), vec![name("x", None, false, true)]);
    assert!(index.get(&id(3)).is_empty());
}

#[test]
fn index_lists_a_name_under_each_commit_given() {
    let mut index = RefNamesIndex::new();
    let conflict = name("c", None, true, true);
    index.insert(&vec![id(1), id(2)], conflict.duplicate());
    assert_eq!(index.get(&id(1)).to_vec(), vec![conflict.duplicate()]);
    assert_eq!(index.get(&id(2)).to_vec(), vec![conflict.duplicate()]);
}

#[test]
fn index_lists_a_name_once_for_each_time_a_commit_is_given() {
    let mut index = RefNamesIndex::new();
    index.insert(&vec![id(1), id(1)], name("a", None, true, true));
    assert_eq!(index.get(&id(1)).len(), 2);
}

#[test]
fn inserting_for_no_commit_changes_nothing() {
    let mut index = RefNamesIndex::new();
    index.insert(&vec![], name("a", None, false, true));
    assert!(index.get(&id(1)).is_empty());
}

#[test]
fn local_branch_without_remotes_is_synced() {
    let view = view_of(vec![branch("main", RefTarget::normal(id(1)), vec![])]);
    let index = build_branches_index(&view);
    assert_eq!(index.get(&id(1)).to_vec(), vec![name("main", None, false, true)]);
}

#[test]
fn tracking_remote_that_differs_makes_both_names_unsynced() {
    let view = view_of(vec![branch(
        "main",
        RefTarget::normal(id(1)),
        vec![remote("origin", RefTarget::normal(id(2)), RemoteRefState::Tracking)],
    )]);
    let index = build_branches_index(&view);
    assert_eq!(index.get(&id(1)).to_vec(), vec![name("main", None, false, false)]);
    assert_eq!(index.get(&id(2)).to_vec(), vec![name("main", Some("origin"), false, false)]);
}

#[test]
fn tracking_remote_that_agrees_makes_both_names_synced() {
    let view = view_of(vec![branch(
        "main",
        RefTarget::normal(id(1)),
        vec![remote("origin", RefTarget::normal(id(1)), RemoteRefState::Tracking)],
    )]);
    let index = build_branches_index(&view);
    assert_eq!(
        index.get(&id(1)).to_vec(),
        vec![name("main", None, false, true), name("main", Some("origin"), false, true)]
    );
}

#[test]
fn remote_that_does_not_track_is_ignored_for_the_local_name_and_never_synced() {
    let view = view_of(vec![branch(
        "main",
        RefTarget::normal(id(1)),
        vec![
            remote("fork", RefTarget::normal(id(2)), RemoteRefState::New),
            remote("mirror", RefTarget::normal(id(1)), RemoteRefState::New),
        ],
    )]);
    let index = build_branches_index(&view);
    assert_eq!(
        index.get(&id(1)).to_vec(),
        vec![name("main", None, false, true), name("main", Some("mirror"), false, false)]
    );
    assert_eq!(index.get(&id(2)).to_vec(), vec![name("main", Some("fork"), false, false)]);
}

#[test]
fn one_differing_tracking_remote_among_several_unsyncs_the_local_name() {
    let view = view_of(vec![branch(
        "main",
        RefTarget::normal(id(1)),
        vec![
            remote("a", RefTarget::normal(id(1)), RemoteRefState::Tracking),
            remote("b", RefTarget::normal(id(3)), RemoteRefState::Tracking),
        ],
    )]);
    let index = build_branches_index(&view);
    assert_eq!(
        index.get(&id(1)).to_vec(),
        vec![name("main", None, false, false), name("main", Some("a"), false, true)]
    );
    assert_eq!(index.get(&id(3)).to_vec(), vec![name("main", Some("b"), false, false)]);
}

#[test]
fn branch_that_only_a_remote_has_gets_no_local_name() {
    let view = view_of(vec![branch(
        "feature",
        RefTarget::absent(),
        vec![remote("origin", RefTarget::normal(id(5)), RemoteRefState::New)],
    )]);
    let index = build_branches_index(&view);
    assert_eq!(index.get(&id(5)).to_vec(), vec![name("feature", Some("origin"), false, false)]);
}

#[test]
fn conflicted_branch_is_listed_under_each_commit_it_adds() {
    let view = view_of(vec![branch("main", conflicted(1, &[2, 3]), vec![])]);
    let index = build_branches_index(&view);
    assert_eq!(index.get(&id(2)).to_vec(), vec![name("main", None, true, true)]);
    assert_eq!(index.get(&id(3)).to_vec(), vec![name("main", None, true, true)]);
    assert!(index.get(&id(1)).is_empty());
}

#[test]
fn conflicted_remote_branch_is_marked_as_conflicted() {
    let view = view_of(vec![branch(
        "main",
        RefTarget::normal(id(2)),
        vec![remote("origin", conflicted(1, &[2, 3]), RemoteRefState::Tracking)],
    )]);
    let index = build_branches_index(&view);
    assert_eq!(
        index.get(&id(2)).to_vec(),
        vec![name("main", None, false, false), name("main", Some("origin"), true, false)]
    );
    assert_eq!(index.get(&id(3)).to_vec(), vec![name("main", Some("origin"), true, false)]);
}

#[test]
fn several_branches_at_one_commit_come_in_the_order_of_the_view() {
    let view = view_of(vec![
        branch("a", RefTarget::normal(id(1)), vec![]),
        branch("b", RefTarget::normal(id(2)), vec![]),
        branch("c", RefTarget::normal(id(1)), vec![]),
    ]);
    let index = build_branches_index(&view);
    assert_eq!(
        index.get(&id(1)).to_vec(),
        vec![name("a", None, false, true), name("c", None, false, true)]
    );
}

#[test]
fn view_without_branches_gives_an_empty_index() {
    let index = build_branches_index(&view_of(vec![]));
    assert!(index.get(&id(1)).is_empty());
}

#[test]
fn tags_are_local_and_always_synced() {
    let refs = vec![
        NamedRef { name: "v1".to_string(), target: RefTarget::normal(id(1)) },
        NamedRef { name: "v2".to_string(), target: conflicted(0, &[1, 2]) },
        NamedRef { name: "gone".to_string(), target: RefTarget::absent() },
    ];
    let index = build_ref_names_index(&refs);
    assert_eq!(
        index.get(&id(1)).to_vec(),
        vec![name("v1", None, false, true), name("v2", None, true, true)]
    );
    assert_eq!(index.get(&id(2)).to_vec(), vec![name("v2", None, true, true)]);
    assert!(index.get(&id(0)).is_empty());
}

#[test]
fn remote_ref_tracks_only_in_the_tracking_state() {
    assert!(remote("o", RefTarget::absent(), RemoteRefState::Tracking).is_tracking());
    assert!(!remote("o", RefTarget::absent(), RemoteRefState::New).is_tracking());
}

#[test]
fn commits_that_share_their_first_bytes_keep_their_own_names() {
    let a = CommitId::new(vec![1, 2, 3, 4, 5, 6, 7, 8, 9]);
    let b = CommitId::new(vec![1, 2, 3, 4, 5, 6, 7, 8, 10]);
    let c = CommitId::new(vec![1, 2, 3, 4, 5, 6, 7, 8]);
    let mut index = RefNamesIndex::new();
    index.insert(&vec![a.duplicate()], name("a", None, false, true));
    index.insert(&vec![b.duplicate()], name("b", None, false, true));
    index.insert(&vec![a.duplicate(), b.duplicate()], name("both", None, true, true));
    assert_eq!(
        index.get(&a).to_vec(),
        vec![name("a", None, false, true), name("both", None, true, true)]
    );
    assert_eq!(
        index.get(&b).to_vec(),
        vec![name("b", None, false, true), name("both", None, true, true)]
    );
    assert!(index.get(&c).is_empty());
}

#[test]
fn commit_ids_of_any_length_are_indexed() {
    let mut index = RefNamesIndex::new();
    let empty = CommitId::new(vec![]);
    let zero = CommitId::new(vec![0]);
    let long = CommitId::new((0..40).collect());
    index.insert(&vec![empty.duplicate()], name("empty", None, false, true));
    index.insert(&vec![zero.duplicate()], name("zero", None, false, true));
    index.insert(&vec![long.duplicate()], name("long", None, false, true));
    assert_eq!(index.get(&empty).to_vec(), vec![name("empty", None, false, true)]);
    assert_eq!(index.get(&zero).to_vec(), vec![name("zero", None, false, true)]);
    assert_eq!(index.get(&long).to_vec(), vec![name("long", None, false, true)]);
    assert!(index.get(&CommitId::new(vec![0, 0])).is_empty());
}
