use std::rc::Rc;

use commit_templater::cache::CommitKeywordCache;
use commit_templater::eval::{eval_empty, eval_ref_name_string, Evaluated};
use commit_templater::extension::NoExtension;
use commit_templater::ids::{ChangeId, CommitId, CommitOrChangeId};
use commit_templater::language::{CommitTemplateLanguage, MethodResolution};
use commit_templater::property::{
    BooleanProperty, CommitListProperty, CommitProperty, CommitTemplate,
    CommitTemplatePropertyKind, Conversion, CoreTemplatePropertyKind, IdProperty,
    IntegerProperty, PlainTextFormattedProperty, RefNameListProperty, RefNameProperty,
    ShortestIdPrefixProperty, SignatureProperty, StringProperty,
};
use commit_templater::ref_names::RefName;
use commit_templater::repo::{
    Branch, Commit, CommitFacts, Fact, MergedTreeId, NamedRef, RefTarget, RemoteRef, RemoteRefState,
    Repo, RepoView, Signature, Timestamp, WorkingCopy,
};
use commit_templater::syntax::{ExpressionKind, ExpressionNode, FunctionCallNode, Span};

type Language = CommitTemplateLanguage<NoExtension<u8>>;

fn id(byte: u8) -> CommitId {
    CommitId::new(vec![byte, byte])
}

fn signature(name: &str) -> Signature {
    Signature {
        name: name.to_string(),
        email: format!("{name}@example.com"),
        timestamp: Timestamp { millis_since_epoch: 1_000, tz_offset: 60 },
    }
}

fn commit(byte: u8, tree: u8) -> Commit {
    Commit {
        id: id(byte),
        change_id: ChangeId::new(vec![byte, 0x0f]),
        description: "subject".to_string(),
        tree_id: MergedTreeId { terms: vec![vec![tree]] },
        author: signature("author"),
        committer: signature("committer"),
    }
}

fn facts() -> CommitFacts {
    CommitFacts {
        parents: Some(vec![]),
        merged_parent_tree: None,
        visible_commits: Some(None),
        commit_id_unique_len: Some(2),
        change_id_unique_len: Some(1),
        has_conflict: Some(false),
    }
}

fn name(name: &str, remote: Option<&str>, conflict: bool, synced: bool) -> RefName {
    RefName { name: name.to_string(), remote: remote.map(|r| r.to_string()), conflict, synced }
}

fn repo() -> Repo {
    let remote = |name: &str, target: u8, state| RemoteRef {
        remote_name: name.to_string(),
        target: RefTarget::normal(id(target)),
        state,
    };
    Repo {
        view: RepoView {
            branches: vec![
                Branch {
                    name: "ahead".to_string(),
                    local_target: RefTarget::normal(id(1)),
                    remote_refs: vec![remote("origin", 2, RemoteRefState::Tracking)],
                },
                Branch {
                    name: "main".to_string(),
                    local_target: RefTarget::normal(id(1)),
                    remote_refs: vec![
                        remote("fork", 1, RemoteRefState::New),
                        remote("origin", 1, RemoteRefState::Tracking),
                    ],
                },
                Branch {
                    name: "solo".to_string(),
                    local_target: RefTarget::normal(id(1)),
                    remote_refs: vec![],
                },
            ],
            tags: vec![NamedRef { name: "v1".to_string(), target: RefTarget::normal(id(1)) }],
            git_refs: vec![NamedRef {
                name: "refs/heads/main".to_string(),
                target: RefTarget::normal(id(1)),
            }],
            git_head: RefTarget::normal(id(2)),
            wc_commit_ids: vec![
                WorkingCopy { workspace_id: "second".to_string(), commit_id: id(1) },
                WorkingCopy { workspace_id: "default".to_string(), commit_id: id(1) },
            ],
        },
        root_commit_id: id(0),
    }
}

fn language() -> Language {
    CommitTemplateLanguage::new(repo(), "default".to_string(), NoExtension::new())
}

fn list_of(language: &Language, keyword: &str) -> RefNameListProperty<u8> {
    match language.build_keyword(keyword, Span { start: 0, end: keyword.len() }) {
        Ok(CommitTemplatePropertyKind::RefNameList(list)) => list,
        other => panic!("{keyword} is no list of ref names: {other:?}"),
    }
}

fn boolean_of(language: &Language, keyword: &str) -> BooleanProperty<u8> {
    match language.build_keyword(keyword, Span { start: 0, end: keyword.len() }) {
        Ok(CommitTemplatePropertyKind::Core(CoreTemplatePropertyKind::Boolean(b))) => b,
        other => panic!("{keyword} is no truth value: {other:?}"),
    }
}

fn string_of(language: &Language, keyword: &str) -> StringProperty<u8> {
    match language.build_keyword(keyword, Span { start: 0, end: keyword.len() }) {
        Ok(CommitTemplatePropertyKind::Core(CoreTemplatePropertyKind::String(s))) => s,
        other => panic!("{keyword} is no text: {other:?}"),
    }
}

fn value_of<T: std::fmt::Debug>(evaluated: Evaluated<T>) -> T {
    match evaluated {
        Evaluated::Value(value) => value,
        other => panic!("no value: {other:?}"),
    }
}

fn call(name: &str, args: Vec<ExpressionNode>) -> FunctionCallNode {
    FunctionCallNode {
        name: name.to_string(),
        name_span: Span { start: 0, end: 1 },
        args,
        args_span: Span { start: 1, end: 2 },
    }
}

fn method(language: &Language, receiver: CommitTemplatePropertyKind<u8>, function: FunctionCallNode) -> CommitTemplatePropertyKind<u8> {
    match language.build_method(receiver, &function) {
        Ok(MethodResolution::Built(kind)) => kind,
        other => panic!("{} did not build: {other:?}", function.name),
    }
}

#[test]
fn branches_lists_local_names_and_remote_names_that_are_out_of_step() {
    let mut language = language();
    let list = list_of(&language, "branches");
    assert_eq!(
        language.eval_ref_name_list(&list, &commit(1, 0)),
        vec![
            name("ahead", None, false, false),
            name("main", None, false, true),
            name("main", Some("fork"), false, false),
            name("solo", None, false, true),
        ]
    );
    assert_eq!(
        language.eval_ref_name_list(&list, &commit(2, 0)),
        vec![name("ahead", Some("origin"), false, false)]
    );
    assert!(language.eval_ref_name_list(&list, &commit(3, 0)).is_empty());
}

#[test]
fn local_branches_lists_local_names_only() {
    let mut language = language();
    let list = list_of(&language, "local_branches");
    assert_eq!(
        language.eval_ref_name_list(&list, &commit(1, 0)),
        vec![
            name("ahead", None, false, false),
            name("main", None, false, true),
            name("solo", None, false, true),
        ]
    );
    assert!(language.eval_ref_name_list(&list, &commit(2, 0)).is_empty());
}

#[test]
fn remote_branches_lists_remote_names_whether_in_step_or_not() {
    let mut language = language();
    let list = list_of(&language, "remote_branches");
    assert_eq!(
        language.eval_ref_name_list(&list, &commit(1, 0)),
        vec![name("main", Some("fork"), false, false), name("main", Some("origin"), false, true)]
    );
    assert_eq!(
        language.eval_ref_name_list(&list, &commit(2, 0)),
        vec![name("ahead", Some("origin"), false, false)]
    );
}

#[test]
fn tags_and_git_refs_list_all_names_at_the_commit() {
    let mut language = language();
    let tags = list_of(&language, "tags");
    let git_refs = list_of(&language, "git_refs");
    assert_eq!(language.eval_ref_name_list(&tags, &commit(1, 0)), vec![name("v1", None, false, true)]);
    assert_eq!(
        language.eval_ref_name_list(&git_refs, &commit(1, 0)),
        vec![name("refs/heads/main", None, false, true)]
    );
    assert!(language.eval_ref_name_list(&tags, &commit(2, 0)).is_empty());
    assert!(language.eval_ref_name_list(&git_refs, &commit(2, 0)).is_empty());
}

#[test]
fn git_head_lists_the_head_at_its_commit_only() {
    let mut language = language();
    let list = list_of(&language, "git_head");
    assert_eq!(
        language.eval_ref_name_list(&list, &commit(2, 0)),
        vec![name("HEAD", Some("git"), false, false)]
    );
    assert!(language.eval_ref_name_list(&list, &commit(1, 0)).is_empty());
}

#[test]
fn lists_of_a_commit_that_the_host_supplies_read_that_commit() {
    let mut language = language();
    let list = match language.build_commit_keyword_opt(CommitProperty::Host(5), "local_branches") {
        Ok(CommitTemplatePropertyKind::RefNameList(list)) => list,
        other => panic!("no list: {other:?}"),
    };
    assert_eq!(list.subject(), &CommitProperty::Host(5));
    assert_eq!(language.eval_ref_name_list(&list, &commit(1, 0)).len(), 3);
}

#[test]
fn index_is_built_once_and_shared() {
    let view = repo().view;
    let mut cache = CommitKeywordCache::new();
    assert!(CommitKeywordCache::default().tags_index(&view).get(&id(9)).is_empty());
    let first = cache.branches_index(&view);
    let second = cache.branches_index(&view);
    assert!(Rc::ptr_eq(&first, &second));
    let tags = cache.tags_index(&view);
    assert!(Rc::ptr_eq(&tags, &cache.tags_index(&view)));
    let git_refs = cache.git_refs_index(&view);
    assert!(Rc::ptr_eq(&git_refs, &cache.git_refs_index(&view)));
    assert!(!Rc::ptr_eq(&tags, &git_refs));
    assert_eq!(first.get(&id(2)).to_vec(), vec![name("ahead", Some("origin"), false, false)]);
    assert_eq!(tags.get(&id(1)).to_vec(), vec![name("v1", None, false, true)]);
    assert_eq!(git_refs.get(&id(1)).to_vec(), vec![name("refs/heads/main", None, false, true)]);
}

#[test]
fn truth_values_of_a_commit() {
    let mut language = language();
    let here = commit(1, 7);
    let mut known = facts();
    known.parents = Some(vec![commit(9, 7)]);
    known.visible_commits = Some(Some(vec![id(1), id(4)]));
    let cases = [
        ("current_working_copy", Evaluated::Value(true)),
        ("divergent", Evaluated::Value(true)),
        ("hidden", Evaluated::Value(false)),
        ("conflict", Evaluated::Value(false)),
        ("empty", Evaluated::Value(true)),
        ("root", Evaluated::Value(false)),
    ];
    for (keyword, expected) in cases {
        let property = boolean_of(&language, keyword);
        assert_eq!(property.subject(), Some(&CommitProperty::Context));
        assert_eq!(language.eval_boolean(&property, &here, &known), expected, "{keyword}");
    }
    let root = boolean_of(&language, "root");
    assert_eq!(language.eval_boolean(&root, &commit(0, 0), &facts()), Evaluated::Value(true));
    let hidden = boolean_of(&language, "hidden");
    assert_eq!(language.eval_boolean(&hidden, &here, &facts()), Evaluated::Value(true));
    let conflict = boolean_of(&language, "conflict");
    let mut conflicted = facts();
    conflicted.has_conflict = Some(true);
    assert_eq!(language.eval_boolean(&conflict, &here, &conflicted), Evaluated::Value(true));
    assert_eq!(
        language.eval_boolean(&conflict, &here, &CommitFacts::new()),
        Evaluated::Missing(Fact::HasConflict)
    );
    let current = boolean_of(&language, "current_working_copy");
    assert_eq!(language.eval_boolean(&current, &commit(2, 0), &facts()), Evaluated::Value(false));
}

#[test]
fn empty_of_a_merge_needs_the_merged_tree() {
    let mut language = language();
    let empty = boolean_of(&language, "empty");
    let mut known = facts();
    known.parents = Some(vec![commit(8, 1), commit(9, 2)]);
    assert_eq!(
        language.eval_boolean(&empty, &commit(1, 3), &known),
        Evaluated::Missing(Fact::MergedParentTree));
    known.merged_parent_tree = Some(MergedTreeId { terms: vec![vec![3]] });
    assert_eq!(language.eval_boolean(&empty, &commit(1, 3), &known), Evaluated::Value(true));
    assert_eq!(language.eval_boolean(&empty, &commit(1, 4), &known), Evaluated::Value(false));
}

#[test]
fn lists_are_true_when_they_have_an_element() {
    let mut language = language();
    let tags = match CommitTemplatePropertyKind::RefNameList(list_of(&language, "tags")).try_into_boolean() {
        Conversion::Converted(b) => b,
        other => panic!("no truth value: {other:?}"),
    };
    assert_eq!(language.eval_boolean(&tags, &commit(1, 0), &facts()), Evaluated::Value(true));
    assert_eq!(language.eval_boolean(&tags, &commit(2, 0), &facts()), Evaluated::Value(false));
    let parents = BooleanProperty::NonEmptyCommitList(CommitListProperty::Parents(CommitProperty::Context));
    assert_eq!(parents.subject(), Some(&CommitProperty::Context));
    assert_eq!(language.eval_boolean(&parents, &commit(1, 0), &facts()), Evaluated::Value(false));
    let mut known = facts();
    known.parents = Some(vec![commit(9, 0)]);
    assert_eq!(language.eval_boolean(&parents, &commit(1, 0), &known), Evaluated::Value(true));
}

#[test]
fn values_of_the_host_are_left_to_the_host() {
    let mut language = language();
    assert_eq!(language.eval_boolean(&BooleanProperty::Host(1), &commit(1, 0), &facts()), Evaluated::Host);
    assert_eq!(
        language.eval_boolean(&BooleanProperty::OfCommit(CommitProperty::Context, 1), &commit(1, 0), &facts()),
        Evaluated::Host);
    assert_eq!(BooleanProperty::<u8>::Host(1).subject(), None);
    assert_eq!(language.eval_string(&StringProperty::Host(1), &commit(1, 0), &facts()), Evaluated::Host);
    assert_eq!(
        language.eval_string(&StringProperty::RefNameName(RefNameProperty::Host(1)), &commit(1, 0), &facts()),
        Evaluated::Host);
    assert_eq!(
        language.eval_string(&StringProperty::RefNameRemote(RefNameProperty::Host(1)), &commit(1, 0), &facts()),
        Evaluated::Host);
    let host_len = StringProperty::Short(IdProperty::CommitId(CommitProperty::Context), Some(IntegerProperty::Host(1)));
    assert_eq!(language.eval_string(&host_len, &commit(1, 0), &facts()), Evaluated::Host);
    assert_eq!(
        language.eval_template(&CommitTemplate::RefName(RefNameProperty::Host(1)), &commit(1, 0), &facts()),
        Evaluated::Host);
    assert_eq!(SignatureProperty::<u8>::Host(1).eval(&commit(1, 0)), Evaluated::Host);
}

#[test]
fn texts_of_a_commit() {
    let language = language();
    let here = commit(1, 0);
    let description = string_of(&language, "description");
    assert_eq!(language.eval_string(&description, &here, &facts()), Evaluated::Value("subject\n".to_string()));
    let working_copies = string_of(&language, "working_copies");
    assert_eq!(
        language.eval_string(&working_copies, &here, &facts()),
        Evaluated::Value("default@ second@".to_string()));
    assert_eq!(language.eval_string(&working_copies, &commit(2, 0), &facts()), Evaluated::Value(String::new()));
    assert_eq!(
        language.eval_string(&StringProperty::Literal("x".to_string()), &here, &facts()),
        Evaluated::Value("x".to_string()));
    assert_eq!(StringProperty::<u8>::Literal("x".to_string()).subject(), None);
}

#[test]
fn short_cuts_the_id_at_twelve_or_at_the_length_given() {
    let language = language();
    let mut here = commit(1, 0);
    here.id = CommitId::new(vec![0x01, 0x23, 0x45, 0x67, 0x89, 0xab, 0xcd, 0xef]);
    let id_kind = language.build_keyword("commit_id", Span { start: 0, end: 9 }).unwrap();
    let short = match method(&language, id_kind, call("short", vec![])) {
        CommitTemplatePropertyKind::Core(CoreTemplatePropertyKind::String(s)) => s,
        other => panic!("no text: {other:?}"),
    };
    assert_eq!(short.subject(), Some(&CommitProperty::Context));
    assert_eq!(language.eval_string(&short, &here, &facts()), Evaluated::Value("0123456789ab".to_string()));
    let len = |n: i64| ExpressionNode { kind: ExpressionKind::Integer(n), span: Span { start: 0, end: 1 } };
    for (n, expected) in [(3, "012"), (0, ""), (-4, ""), (16, "0123456789abcdef"), (99, "0123456789abcdef")] {
        let id_kind = language.build_keyword("commit_id", Span { start: 0, end: 9 }).unwrap();
        let short = match method(&language, id_kind, call("short", vec![len(n)])) {
            CommitTemplatePropertyKind::Core(CoreTemplatePropertyKind::String(s)) => s,
            other => panic!("no text: {other:?}"),
        };
        assert_eq!(language.eval_string(&short, &here, &facts()), Evaluated::Value(expected.to_string()));
    }
    let change_kind = language.build_keyword("change_id", Span { start: 0, end: 9 }).unwrap();
    let short = match method(&language, change_kind, call("short", vec![len(3)])) {
        CommitTemplatePropertyKind::Core(CoreTemplatePropertyKind::String(s)) => s,
        other => panic!("no text: {other:?}"),
    };
    assert_eq!(language.eval_string(&short, &here, &facts()), Evaluated::Value("zyz".to_string()));
}

#[test]
fn shortest_splits_the_id_and_folds_its_case() {
    let mut language = language();
    let mut here = commit(1, 0);
    here.id = CommitId::new(vec![0xab, 0xcd, 0xef]);
    let id = || IdProperty::<u8>::CommitId(CommitProperty::Context);
    let base = || ShortestIdPrefixProperty::Shortest(id(), None);
    assert_eq!(base().subject(), &CommitProperty::Context);
    let split = value_of(base().eval(&here, &facts()));
    assert_eq!((split.prefix.as_str(), split.rest.as_str()), ("ab", "cdef"));
    let longer = ShortestIdPrefixProperty::Shortest(id(), Some(IntegerProperty::Literal(4)));
    let split = value_of(longer.eval(&here, &facts()));
    assert_eq!((split.prefix.as_str(), split.rest.as_str()), ("abcd", "ef"));
    let upper = ShortestIdPrefixProperty::Upper(Box::new(base()));
    let split = value_of(upper.eval(&here, &facts()));
    assert_eq!((split.prefix.as_str(), split.rest.as_str()), ("AB", "CDEF"));
    let lower = ShortestIdPrefixProperty::Lower(Box::new(ShortestIdPrefixProperty::Upper(Box::new(base()))));
    let split = value_of(lower.eval(&here, &facts()));
    assert_eq!((split.prefix.as_str(), split.rest.as_str()), ("ab", "cdef"));
    assert_eq!(
        language.eval_string(&StringProperty::Prefix(upper), &here, &facts()),
        Evaluated::Value("AB".to_string()));
    assert_eq!(language.eval_string(&StringProperty::Rest(base()), &here, &facts()), Evaluated::Value("cdef".to_string()));
    let change = ShortestIdPrefixProperty::Shortest(IdProperty::<u8>::ChangeId(CommitProperty::Context), None);
    let split = value_of(change.eval(&here, &facts()));
    assert_eq!((split.prefix.as_str(), split.rest.as_str()), ("z", "yzk"));
    let host_len = ShortestIdPrefixProperty::Shortest(id(), Some(IntegerProperty::Host(1)));
    assert_eq!(host_len.eval(&here, &facts()), Evaluated::Host);
    assert_eq!(ShortestIdPrefixProperty::Upper(Box::new(host_len)).eval(&here, &facts()), Evaluated::Host);
    let template = CommitTemplate::ShortestIdPrefix(base());
    let out = value_of(language.eval_template(&template, &here, &facts()));
    assert_eq!(out.len(), 2);
    assert_eq!(out[0].label.as_deref(), Some("prefix"));
    assert_eq!(out[0].text, "ab");
    assert_eq!(out[1].label.as_deref(), Some("rest"));
    assert_eq!(out[1].text, "cdef");
}

#[test]
fn ids_and_signatures_of_a_commit() {
    let here = commit(1, 0);
    assert_eq!(
        IdProperty::<u8>::CommitId(CommitProperty::Context).eval(&here),
        CommitOrChangeId::Commit(id(1))
    );
    assert_eq!(
        IdProperty::<u8>::ChangeId(CommitProperty::Host(2)).eval(&here),
        CommitOrChangeId::Change(ChangeId::new(vec![1, 0x0f]))
    );
    assert_eq!(IdProperty::<u8>::ChangeId(CommitProperty::Host(2)).subject(), &CommitProperty::Host(2));
    assert_eq!(CommitListProperty::<u8>::Parents(CommitProperty::Host(2)).subject(), &CommitProperty::Host(2));
    assert_eq!(SignatureProperty::<u8>::Author(CommitProperty::Context).eval(&here), Evaluated::Value(signature("author")));
    assert_eq!(
        SignatureProperty::<u8>::Committer(CommitProperty::Context).eval(&here),
        Evaluated::Value(signature("committer")));
}

#[test]
fn values_are_written_out_as_text() {
    let mut language = language();
    let here = commit(1, 0);
    let list = CommitTemplate::RefNameList(list_of(&language, "branches"));
    assert_eq!(list.subject(), Some(&CommitProperty::Context));
    let plain = PlainTextFormattedProperty { template: list };
    assert_eq!(
        language.eval_plain_text(&plain, &here, &facts()),
        Evaluated::Value("ahead* main main@fork solo".to_string()));
    let id = PlainTextFormattedProperty {
        template: CommitTemplate::CommitOrChangeId(IdProperty::CommitId(CommitProperty::Context)),
    };
    assert_eq!(language.eval_plain_text(&id, &here, &facts()), Evaluated::Value("0101".to_string()));
    let host = PlainTextFormattedProperty { template: CommitTemplate::RefName(RefNameProperty::Host(1)) };
    assert_eq!(language.eval_plain_text(&host, &here, &facts()), Evaluated::Host);
    assert_eq!(CommitTemplate::<u8>::RefName(RefNameProperty::Host(1)).subject(), None);
}

#[test]
fn facts_are_asked_for_one_by_one_and_only_when_read() {
    let mut language = language();
    let here = commit(1, 3);
    let mut known = CommitFacts::new();
    for keyword in ["current_working_copy", "root"] {
        let property = boolean_of(&language, keyword);
        assert!(matches!(language.eval_boolean(&property, &here, &known), Evaluated::Value(_)));
    }
    let empty = boolean_of(&language, "empty");
    assert_eq!(language.eval_boolean(&empty, &here, &known), Evaluated::Missing(Fact::Parents));
    assert!(!known.has(Fact::Parents));
    known.parents = Some(vec![commit(8, 3)]);
    assert!(known.has(Fact::Parents));
    assert_eq!(language.eval_boolean(&empty, &here, &known), Evaluated::Value(true));
    known.parents = Some(vec![]);
    assert_eq!(eval_empty(&here, &known), Evaluated::Missing(Fact::MergedParentTree));
    known.merged_parent_tree = Some(MergedTreeId { terms: vec![vec![3]] });
    assert_eq!(eval_empty(&here, &known), Evaluated::Value(true));
    let divergent = boolean_of(&language, "divergent");
    let hidden = boolean_of(&language, "hidden");
    assert_eq!(language.eval_boolean(&divergent, &here, &known), Evaluated::Missing(Fact::VisibleCommits));
    assert_eq!(language.eval_boolean(&hidden, &here, &known), Evaluated::Missing(Fact::VisibleCommits));
    known.visible_commits = Some(Some(vec![id(1)]));
    assert_eq!(language.eval_boolean(&divergent, &here, &known), Evaluated::Value(false));
    assert_eq!(language.eval_boolean(&hidden, &here, &known), Evaluated::Value(false));
    let parents = BooleanProperty::NonEmptyCommitList(CommitListProperty::Parents(CommitProperty::Context));
    assert_eq!(
        language.eval_boolean(&parents, &here, &CommitFacts::new()),
        Evaluated::Missing(Fact::Parents)
    );
}

#[test]
fn unique_length_is_asked_for_by_the_space_of_the_id() {
    let mut language = language();
    let here = commit(1, 0);
    let mut known = CommitFacts::new();
    let of_commit = || ShortestIdPrefixProperty::Shortest(IdProperty::<u8>::CommitId(CommitProperty::Context), None);
    let of_change = || ShortestIdPrefixProperty::Shortest(IdProperty::<u8>::ChangeId(CommitProperty::Context), None);
    assert_eq!(of_commit().eval(&here, &known), Evaluated::Missing(Fact::CommitIdUniqueLen));
    assert_eq!(of_change().eval(&here, &known), Evaluated::Missing(Fact::ChangeIdUniqueLen));
    assert_eq!(
        ShortestIdPrefixProperty::Lower(Box::new(of_change())).eval(&here, &known),
        Evaluated::Missing(Fact::ChangeIdUniqueLen)
    );
    assert_eq!(
        language.eval_string(&StringProperty::Prefix(of_commit()), &here, &known),
        Evaluated::Missing(Fact::CommitIdUniqueLen)
    );
    assert_eq!(
        language.eval_template(&CommitTemplate::ShortestIdPrefix(of_change()), &here, &known),
        Evaluated::Missing(Fact::ChangeIdUniqueLen)
    );
    assert_eq!(
        language.eval_plain_text(
            &PlainTextFormattedProperty { template: CommitTemplate::ShortestIdPrefix(of_commit()) },
            &here,
            &known
        ),
        Evaluated::Missing(Fact::CommitIdUniqueLen)
    );
    known.commit_id_unique_len = Some(1);
    let split = value_of(of_commit().eval(&here, &known));
    assert_eq!((split.prefix.as_str(), split.rest.as_str()), ("0", "101"));
    assert_eq!(of_change().eval(&here, &known), Evaluated::Missing(Fact::ChangeIdUniqueLen));
    let short = StringProperty::Short(IdProperty::<u8>::CommitId(CommitProperty::Context), None);
    assert_eq!(language.eval_string(&short, &here, &CommitFacts::new()), Evaluated::Value("0101".to_string()));
}

#[test]
fn texts_of_a_ref_name() {
    let local = name("main", None, false, true);
    let remote = name("main", Some("origin"), false, true);
    let of_name = StringProperty::RefNameName(RefNameProperty::Host(1u8));
    let of_remote = StringProperty::RefNameRemote(RefNameProperty::Host(1u8));
    assert_eq!(eval_ref_name_string(&of_name, &local), Evaluated::Value("main".to_string()));
    assert_eq!(eval_ref_name_string(&of_remote, &local), Evaluated::Value(String::new()));
    assert_eq!(eval_ref_name_string(&of_remote, &remote), Evaluated::Value("origin".to_string()));
    assert_eq!(
        eval_ref_name_string(&StringProperty::Description(CommitProperty::<u8>::Context), &local),
        Evaluated::Host
    );
}
