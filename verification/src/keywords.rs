//! What the keywords of a commit come to once the commit is at hand.

use vstd::prelude::*;
use itertools::Itertools;
use crate::ids::CommitId;
use crate::ref_names::{names_view, RefName, RefNameView};
use crate::repo::{contains_id, ids_view, Commit, MergedTreeId, RepoView, WorkingCopy};
use crate::text::{join, joined, str_eq, texts_of};

verus! {

/// Whether `a` comes before `b` or equals it, character by character in the
/// order of the code points, a text before any text that it begins.
pub open spec fn text_le(a: Seq<char>, b: Seq<char>) -> bool
    decreases a.len(),
{
    if a.len() == 0 {
        true
    } else if b.len() == 0 {
        false
    } else if a[0] != b[0] {
        a[0] < b[0]
    } else {
        text_le(a.drop_first(), b.drop_first())
    }
}

/// Whether no text of the list comes before one that precedes it.
pub open spec fn ascending(names: Seq<Seq<char>>) -> bool {
    forall|i: int, j: int| 0 <= i <= j < names.len() ==> text_le(names[i], names[j])
}

/// `Itertools::sorted` on strings: the same strings, in ascending order. `Ord`
/// on strings goes byte by byte, which orders them by their code points.
#[verifier::external_body]
fn sorted_names(names: Vec<String>) -> (r: Vec<String>)
    ensures
        texts_of(r@).to_multiset() == texts_of(names@).to_multiset(),
        ascending(texts_of(r@)),
{
    names.into_iter().sorted().collect()
}

/// The workspaces among `entries` that have the commit `id` checked out, in
/// the order of the entries.
pub open spec fn workspaces_at(entries: Seq<WorkingCopy>, id: Seq<u8>) -> Seq<Seq<char>>
    decreases entries.len(),
{
    if entries.len() == 0 {
        Seq::empty()
    } else {
        let before = workspaces_at(entries.drop_last(), id);
        if entries.last().commit_id@ == id {
            before.push(entries.last().workspace_id@)
        } else {
            before
        }
    }
}

/// Each name followed by `@`.
pub open spec fn tokens(names: Seq<Seq<char>>) -> Seq<Seq<char>> {
    names.map_values(|n: Seq<char>| n.push('@'))
}

/// Whether `names` are the workspaces that have the commit `id` checked out, in
/// ascending order.
pub open spec fn is_sorted_workspaces_at(view: RepoView, id: Seq<u8>, names: Seq<Seq<char>>) -> bool {
    &&& names.to_multiset() == workspaces_at(view.wc_commit_ids@, id).to_multiset()
    &&& ascending(names)
}

/// Two texts are equal if neither comes after the other.
pub proof fn lemma_text_le_antisymmetric(a: Seq<char>, b: Seq<char>)
    requires
        text_le(a, b),
        text_le(b, a),
    ensures
        a == b,
    decreases a.len(),
{
    if a.len() == 0 {
        assert(a =~= b);
    } else {
        lemma_text_le_antisymmetric(a.drop_first(), b.drop_first());
        assert(a =~= seq![a[0]] + a.drop_first());
        assert(b =~= seq![b[0]] + b.drop_first());
    }
}

/// There is one way only to put given texts in ascending order.
pub proof fn lemma_ascending_unique(a: Seq<Seq<char>>, b: Seq<Seq<char>>)
    requires
        ascending(a),
        ascending(b),
        a.to_multiset() == b.to_multiset(),
    ensures
        a == b,
    decreases a.len(),
{
    a.to_multiset_ensures();
    b.to_multiset_ensures();
    if a.len() == 0 {
        assert(a =~= b);
    } else {
        let x = a.last();
        let y = b.last();
        assert(a.contains(x));
        assert(b.contains(y));
        assert(b.to_multiset().count(x) > 0);
        assert(a.to_multiset().count(y) > 0);
        let j = choose|j: int| 0 <= j < b.len() && b[j] == x;
        let i = choose|i: int| 0 <= i < a.len() && a[i] == y;
        assert(text_le(b[j], b[b.len() - 1]));
        assert(text_le(a[i], a[a.len() - 1]));
        lemma_text_le_antisymmetric(x, y);
        let a2 = a.drop_last();
        let b2 = b.drop_last();
        assert(a2 =~= a.remove(a.len() - 1));
        assert(b2 =~= b.remove(b.len() - 1));
        assert(a2.to_multiset() =~= b2.to_multiset());
        assert forall|p: int, q: int| 0 <= p <= q < a2.len() implies text_le(a2[p], a2[q]) by {
            assert(a2[p] == a[p] && a2[q] == a[q]);
        }
        assert forall|p: int, q: int| 0 <= p <= q < b2.len() implies text_le(b2[p], b2[q]) by {
            assert(b2[p] == b[p] && b2[q] == b[q]);
        }
        lemma_ascending_unique(a2, b2);
        assert(a =~= a2.push(x));
        assert(b =~= b2.push(y));
    }
}

/// The workspaces that have the commit `id` checked out, in ascending order.
pub open spec fn sorted_workspaces_at(view: RepoView, id: Seq<u8>) -> Seq<Seq<char>> {
    choose|names: Seq<Seq<char>>| is_sorted_workspaces_at(view, id, names)
}

/// What `extract_working_copies` gives: nothing while the repository has at
/// most one workspace, else the workspaces at the commit in ascending order,
/// each followed by `@`, with one space between neighbours.
pub open spec fn working_copies_text(view: RepoView, id: Seq<u8>) -> Seq<char> {
    if view.wc_commit_ids@.len() <= 1 {
        Seq::empty()
    } else {
        joined(tokens(sorted_workspaces_at(view, id)), seq![' '])
    }
}

/// Names the workspaces that have a commit checked out.
pub fn extract_working_copies(view: &RepoView, commit: &Commit) -> (r: String)
    ensures
        r@ == working_copies_text(*view, commit.id@),
{
    if view.wc_commit_ids.len() <= 1 {
        return String::new();
    }
    let mut found: Vec<String> = Vec::new();
    let mut i: usize = 0;
    assert(view.wc_commit_ids@.take(0) =~= Seq::<WorkingCopy>::empty());
    assert(texts_of(found@) =~= Seq::<Seq<char>>::empty());
    while i < view.wc_commit_ids.len()
        invariant
            i <= view.wc_commit_ids.len(),
            texts_of(found@) == workspaces_at(view.wc_commit_ids@.take(i as int), commit.id@),
        decreases view.wc_commit_ids.len() - i,
    {
        let entry = &view.wc_commit_ids[i];
        let ghost before = texts_of(found@);
        assert(view.wc_commit_ids@.take(i + 1).drop_last() =~= view.wc_commit_ids@.take(i as int));
        if entry.commit_id.same(&commit.id) {
            found.push(entry.workspace_id.clone());
            assert(texts_of(found@) =~= before.push(entry.workspace_id@));
        }
        i += 1;
    }
    assert(view.wc_commit_ids@.take(view.wc_commit_ids.len() as int) =~= view.wc_commit_ids@);
    let sorted = sorted_names(found);
    let ghost names = texts_of(sorted@);
    let mut parts: Vec<String> = Vec::new();
    let mut k: usize = 0;
    assert(texts_of(parts@) =~= tokens(names.take(0)));
    while k < sorted.len()
        invariant
            k <= sorted.len(),
            names == texts_of(sorted@),
            texts_of(parts@) == tokens(names.take(k as int)),
        decreases sorted.len() - k,
    {
        proof {
            reveal_strlit("@");
        }
        let ghost before = texts_of(parts@);
        let token = sorted[k].clone().concat("@");
        assert(token@ =~= names[k as int].push('@'));
        parts.push(token);
        assert(texts_of(parts@) =~= before.push(token@));
        assert(tokens(names.take(k + 1)) =~= tokens(names.take(k as int)).push(
            names[k as int].push('@'),
        ));
        k += 1;
    }
    assert(names.take(sorted.len() as int) =~= names);
    proof {
        reveal_strlit(" ");
    }
    let r = join(&parts, " ");
    assert(" "@ =~= seq![' ']);
    proof {
        assert(is_sorted_workspaces_at(*view, commit.id@, names));
        lemma_ascending_unique(names, sorted_workspaces_at(*view, commit.id@));
    }
    r
}

/// The commit that a workspace has checked out according to `entries`: that of
/// the first entry for the workspace.
pub open spec fn wc_commit_id_of(entries: Seq<WorkingCopy>, workspace_id: Seq<char>) -> Option<
    Seq<u8>,
>
    decreases entries.len(),
{
    if entries.len() == 0 {
        None
    } else if entries[0].workspace_id@ == workspace_id {
        Some(entries[0].commit_id@)
    } else {
        wc_commit_id_of(entries.drop_first(), workspace_id)
    }
}

/// Whether a workspace has the commit checked out.
pub fn is_current_working_copy(view: &RepoView, workspace_id: &str, commit: &Commit) -> (r: bool)
    ensures
        r == (wc_commit_id_of(view.wc_commit_ids@, workspace_id@) == Some(commit.id@)),
{
    let mut i: usize = 0;
    assert(view.wc_commit_ids@.skip(0) =~= view.wc_commit_ids@);
    while i < view.wc_commit_ids.len()
        invariant
            i <= view.wc_commit_ids.len(),
            wc_commit_id_of(view.wc_commit_ids@, workspace_id@) == wc_commit_id_of(
                view.wc_commit_ids@.skip(i as int),
                workspace_id@,
            ),
        decreases view.wc_commit_ids.len() - i,
    {
        let entry = &view.wc_commit_ids[i];
        let ghost rest = view.wc_commit_ids@.skip(i as int);
        assert(rest[0] == view.wc_commit_ids@[i as int]);
        if str_eq(entry.workspace_id.as_str(), workspace_id) {
            return entry.commit_id.same(&commit.id);
        }
        assert(rest.drop_first() =~= view.wc_commit_ids@.skip(i + 1));
        i += 1;
    }
    false
}

/// Which names of a commit a keyword lists.
#[derive(Clone, Copy, Debug, PartialEq, Eq)]
pub enum RefNameFilter {
    /// The local names, and the remote ones that are not in step with them.
    LocalOrUnsynced,
    Local,
    Remote,
    All,
}

impl RefNameFilter {
    /// Whether the filter lets a name pass.
    pub open spec fn keeps(self, name: RefNameView) -> bool {
        match self {
            RefNameFilter::LocalOrUnsynced => name.remote is None || !name.synced,
            RefNameFilter::Local => name.remote is None,
            RefNameFilter::Remote => name.remote is Some,
            RefNameFilter::All => true,
        }
    }

    /// The names that the filter lets pass, in their order.
    pub open spec fn kept(self, names: Seq<RefNameView>) -> Seq<RefNameView>
        decreases names.len(),
    {
        if names.len() == 0 {
            Seq::empty()
        } else if self.keeps(names.last()) {
            self.kept(names.drop_last()).push(names.last())
        } else {
            self.kept(names.drop_last())
        }
    }

    /// Copies the names that the filter lets pass.
    pub fn apply(self, names: &[RefName]) -> (r: Vec<RefName>)
        ensures
            names_view(r@) == self.kept(names_view(names@)),
    {
        let mut out: Vec<RefName> = Vec::new();
        let mut i: usize = 0;
        let ghost all = names_view(names@);
        assert(all.take(0) =~= Seq::<RefNameView>::empty());
        assert(names_view(out@) =~= Seq::<RefNameView>::empty());
        while i < names.len()
            invariant
                i <= names.len(),
                all == names_view(names@),
                names_view(out@) == self.kept(all.take(i as int)),
            decreases names.len() - i,
        {
            let name = &names[i];
            let ghost before = names_view(out@);
            assert(all.take(i + 1).drop_last() =~= all.take(i as int));
            assert(all.take(i + 1).last() == name@);
            let keep = match self {
                RefNameFilter::LocalOrUnsynced => name.is_local() || !name.synced,
                RefNameFilter::Local => name.is_local(),
                RefNameFilter::Remote => name.is_remote(),
                RefNameFilter::All => true,
            };
            if keep {
                out.push(name.duplicate());
                assert(names_view(out@) =~= before.push(name@));
            }
            i += 1;
        }
        assert(all.take(names.len() as int) =~= all);
        out
    }
}

/// The filter that keeps every name changes nothing.
pub proof fn lemma_all_kept(names: Seq<RefNameView>)
    ensures
        RefNameFilter::All.kept(names) == names,
    decreases names.len(),
{
    if names.len() > 0 {
        lemma_all_kept(names.drop_last());
        assert(names.drop_last().push(names.last()) =~= names);
    }
}

/// The filter keeps no name that it does not let pass.
pub proof fn lemma_kept_passes(filter: RefNameFilter, names: Seq<RefNameView>, i: int)
    requires
        0 <= i < filter.kept(names).len(),
    ensures
        filter.keeps(filter.kept(names)[i]),
        names.contains(filter.kept(names)[i]),
    decreases names.len(),
{
    let before = filter.kept(names.drop_last());
    if filter.keeps(names.last()) && i == before.len() {
        assert(names[names.len() - 1] == names.last());
    } else {
        lemma_kept_passes(filter, names.drop_last(), i);
        let j = choose|j: int| 0 <= j < names.drop_last().len() && names.drop_last()[j] == before[i];
        assert(names[j] == before[i]);
    }
}

/// A name that the filter lets pass is among the names kept if it is among
/// the names given.
pub proof fn lemma_kept_contains(filter: RefNameFilter, names: Seq<RefNameView>, name: RefNameView)
    requires
        names.contains(name),
        filter.keeps(name),
    ensures
        filter.kept(names).contains(name),
    decreases names.len(),
{
    let before = filter.kept(names.drop_last());
    if names.last() == name {
        assert(before.push(name)[before.len() as int] == name);
    } else {
        let i = choose|i: int| 0 <= i < names.len() && names[i] == name;
        assert(names.drop_last()[i] == name);
        lemma_kept_contains(filter, names.drop_last(), name);
        let k = choose|k: int| 0 <= k < before.len() && before[k] == name;
        if filter.keeps(names.last()) {
            assert(before.push(names.last())[k] == name);
        }
    }
}

/// The remote under which the Git repository that backs the workspace is listed.
pub open spec fn local_git_remote() -> Seq<char> {
    "git"@
}

/// `jj_lib::git::REMOTE_NAME_FOR_LOCAL_GIT_REPO`: the remote name that stands
/// for the backing Git repository, which is `git`.
#[verifier::external_body]
fn remote_name_for_local_git_repo() -> (r: String)
    ensures
        r@ == local_git_remote(),
{
    jj_lib::git::REMOTE_NAME_FOR_LOCAL_GIT_REPO.to_owned()
}

/// The name under which the Git HEAD is listed.
pub open spec fn git_head_name(view: RepoView) -> RefNameView {
    RefNameView {
        name: "HEAD"@,
        remote: Some(local_git_remote()),
        conflict: view.git_head.has_conflict_spec(),
        synced: false,
    }
}

/// What `extract_git_head` gives: the Git HEAD for a commit that it points to,
/// and nothing for any other.
pub open spec fn git_head_names(view: RepoView, id: Seq<u8>) -> Seq<RefNameView> {
    if view.git_head.added_ids_spec().contains(id) {
        seq![git_head_name(view)]
    } else {
        Seq::empty()
    }
}

/// Lists the Git HEAD if it points to the commit.
pub fn extract_git_head(view: &RepoView, commit: &Commit) -> (r: Vec<RefName>)
    ensures
        names_view(r@) == git_head_names(*view, commit.id@),
{
    let target = &view.git_head;
    let ids = target.added_ids();
    let mut out: Vec<RefName> = Vec::new();
    if contains_id(&ids, &commit.id) {
        let ref_name = RefName {
            name: "HEAD".to_owned(),
            remote: Some(remote_name_for_local_git_repo()),
            conflict: target.has_conflict(),
            synced: false,
        };
        assert(ref_name@ == git_head_name(*view));
        out.push(ref_name);
        assert(names_view(out@) =~= seq![git_head_name(*view)]);
    } else {
        assert(names_view(out@) =~= Seq::<RefNameView>::empty());
    }
    out
}

/// Whether a change has more than one visible commit, given its visible
/// commits, if it has any.
pub fn is_divergent(visible: &Option<Vec<CommitId>>) -> (r: bool)
    ensures
        r == (visible matches Some(ids) && ids@.len() > 1),
{
    match visible {
        Some(ids) => ids.len() > 1,
        None => false,
    }
}

/// Whether a commit is not among the visible commits of its change, given
/// those commits, if the change has any.
pub fn is_hidden(visible: &Option<Vec<CommitId>>, commit: &Commit) -> (r: bool)
    ensures
        r == !(visible matches Some(ids) && ids_view(ids@).contains(commit.id@)),
{
    match visible {
        Some(ids) => !contains_id(ids, &commit.id),
        None => true,
    }
}

/// What `is_empty` gives: with exactly one parent, whether the commit has the
/// tree of that parent; else whether it has the tree that merging the trees of
/// its parents gives, and nothing if that tree is not at hand.
pub open spec fn empty_spec(
    commit: Commit,
    parents: Seq<Commit>,
    merged_parent_tree: Option<MergedTreeId>,
) -> Option<bool> {
    if parents.len() == 1 {
        Some(parents[0].tree_id@ == commit.tree_id@)
    } else {
        match merged_parent_tree {
            Some(tree) => Some(commit.tree_id@ == tree@),
            None => None,
        }
    }
}

/// Whether a commit changes nothing against its parents. The merge of the
/// parents' trees is read only if the commit has no parent or several.
pub fn is_empty(commit: &Commit, parents: &Vec<Commit>, merged_parent_tree: Option<&MergedTreeId>) -> (r:
    Option<bool>)
    ensures
        r == empty_spec(
            *commit,
            parents@,
            match merged_parent_tree {
                Some(tree) => Some(*tree),
                None => None,
            },
        ),
        parents@.len() == 1 ==> r == Some(parents@[0].tree_id@ == commit.tree_id@),
{
    if parents.len() == 1 {
        Some(parents[0].tree_id.same(&commit.tree_id))
    } else {
        match merged_parent_tree {
            Some(tree) => Some(commit.tree_id.same(tree)),
            None => None,
        }
    }
}

/// Whether a commit is the root commit of the repository.
pub fn is_root(commit: &Commit, root_commit_id: &CommitId) -> (r: bool)
    ensures
        r == (commit.id@ == root_commit_id@),
{
    commit.id.same(root_commit_id)
}

/// The length that `short` cuts at: 12 if none is given, and 0 for a number
/// that is no length.
pub open spec fn short_len_spec(len: Option<i64>) -> usize {
    match len {
        None => 12,
        Some(l) => if 0 <= l <= usize::MAX {
            l as usize
        } else {
            0
        },
    }
}

/// The least length that `shortest` keeps: 0 if none is given, and 0 for a
/// number that is no length.
pub open spec fn shortest_len_spec(len: Option<i64>) -> usize {
    match len {
        None => 0,
        Some(l) => if 0 <= l <= usize::MAX {
            l as usize
        } else {
            0
        },
    }
}

/// A number as a length, and 0 if it is none.
fn length_or_zero(l: i64) -> (r: usize)
    ensures
        r == if 0 <= l <= usize::MAX {
            l as usize
        } else {
            0usize
        },
{
    if l < 0 {
        0
    } else if l as u64 > usize::MAX as u64 {
        0
    } else {
        l as usize
    }
}

pub fn short_len(len: Option<i64>) -> (r: usize)
    ensures
        r == short_len_spec(len),
{
    match len {
        None => 12,
        Some(l) => length_or_zero(l),
    }
}

pub fn shortest_len(len: Option<i64>) -> (r: usize)
    ensures
        r == shortest_len_spec(len),
{
    match len {
        None => 0,
        Some(l) => length_or_zero(l),
    }
}

/// The remote of a ref name, and the empty text for a local one.
pub fn remote_or_empty(ref_name: &RefName) -> (r: String)
    ensures
        r@ == match ref_name@.remote {
            Some(remote) => remote,
            None => Seq::<char>::empty(),
        },
{
    match &ref_name.remote {
        Some(remote) => remote.clone(),
        None => String::new(),
    }
}

} // verus!
