//! The repository snapshot as the templater reads it: ref targets, branches,
//! tags, the Git head, the working copies, and the commits themselves.

use vstd::prelude::*;
use crate::ids::{same_bytes, ChangeId, CommitId};

verus! {

/// What a term of a ref target points to, as bytes.
pub open spec fn term_view(term: Option<CommitId>) -> Option<Seq<u8>> {
    match term {
        Some(id) => Some(id@),
        None => None,
    }
}

/// The ids among the terms at `from`, `from + 2`, and so on, in that order.
pub open spec fn added_from(terms: Seq<Option<Seq<u8>>>, from: int) -> Seq<Seq<u8>>
    decreases terms.len() + 2 - from,
{
    if from < 0 || from >= terms.len() {
        Seq::empty()
    } else {
        match terms[from] {
            Some(id) => seq![id] + added_from(terms, from + 2),
            None => added_from(terms, from + 2),
        }
    }
}

/// What a ref points to. The terms alternate between added and removed
/// commits, starting with an added one, and a missing commit is `None`. A ref
/// that points to one commit has that single term; more terms mean that the
/// ref is conflicted.
#[derive(Clone, Debug, PartialEq, Eq)]
pub struct RefTarget {
    pub terms: Vec<Option<CommitId>>,
}

impl View for RefTarget {
    type V = Seq<Option<Seq<u8>>>;

    open spec fn view(&self) -> Seq<Option<Seq<u8>>> {
        self.terms@.map_values(|t: Option<CommitId>| term_view(t))
    }
}

impl RefTarget {
    /// Whether there is one added term more than there are removed ones.
    pub open spec fn wf(&self) -> bool {
        self.terms@.len() % 2 == 1
    }

    /// Whether the target points to any commit: all but the single missing term do.
    pub open spec fn is_present_spec(&self) -> bool {
        !(self@.len() == 1 && self@[0] is None)
    }

    /// Whether the target is conflicted: it is unless it has exactly one term.
    pub open spec fn has_conflict_spec(&self) -> bool {
        self@.len() != 1
    }

    /// The commits that the added terms name, in order.
    pub open spec fn added_ids_spec(&self) -> Seq<Seq<u8>> {
        added_from(self@, 0)
    }

    /// The target that points to no commit.
    pub fn absent() -> (r: RefTarget)
        ensures
            r.wf(),
            r@ == seq![None::<Seq<u8>>],
            !r.is_present_spec(),
    {
        let mut terms: Vec<Option<CommitId>> = Vec::new();
        terms.push(None);
        let r = RefTarget { terms };
        assert(r@ =~= seq![None::<Seq<u8>>]);
        r
    }

    /// The target that points to one commit.
    pub fn normal(id: CommitId) -> (r: RefTarget)
        ensures
            r.wf(),
            r@ == seq![Some(id@)],
            r.added_ids_spec() == seq![id@],
    {
        let ghost bytes = id@;
        let mut terms: Vec<Option<CommitId>> = Vec::new();
        terms.push(Some(id));
        let r = RefTarget { terms };
        assert(r@ =~= seq![Some(bytes)]);
        assert(added_from(r@, 2) =~= Seq::<Seq<u8>>::empty());
        assert(added_from(r@, 0) =~= seq![bytes]);
        r
    }

    pub fn is_present(&self) -> (r: bool)
        ensures
            r == self.is_present_spec(),
    {
        !(self.terms.len() == 1 && self.terms[0].is_none())
    }

    pub fn has_conflict(&self) -> (r: bool)
        ensures
            r == self.has_conflict_spec(),
    {
        self.terms.len() != 1
    }

    pub fn added_ids(&self) -> (r: Vec<CommitId>)
        ensures
            ids_view(r@) == self.added_ids_spec(),
    {
        let mut out: Vec<CommitId> = Vec::new();
        let mut i: usize = 0;
        assert(ids_view(out@) =~= Seq::<Seq<u8>>::empty());
        while i < self.terms.len()
            invariant
                ids_view(out@) + added_from(self@, i as int) == added_from(self@, 0),
            decreases self.terms.len() - i,
        {
            let ghost before = ids_view(out@);
            match &self.terms[i] {
                Some(id) => {
                    out.push(id.duplicate());
                    assert(ids_view(out@) =~= before.push(id@));
                    assert(before.push(id@) + added_from(self@, i + 2) =~= before + (seq![id@]
                        + added_from(self@, i + 2)));
                },
                None => {},
            }
            if self.terms.len() - i >= 2 {
                i += 2;
            } else {
                assert(added_from(self@, i + 2) =~= Seq::<Seq<u8>>::empty());
                i = self.terms.len();
            }
        }
        assert(added_from(self@, i as int) =~= Seq::<Seq<u8>>::empty());
        assert(ids_view(out@) + Seq::<Seq<u8>>::empty() =~= ids_view(out@));
        out
    }

    /// Whether two targets have the same terms.
    pub fn same(&self, other: &RefTarget) -> (r: bool)
        ensures
            r == (self@ == other@),
    {
        if self.terms.len() != other.terms.len() {
            return false;
        }
        let mut i: usize = 0;
        while i < self.terms.len()
            invariant
                self.terms.len() == other.terms.len(),
                i <= self.terms.len(),
                self@.take(i as int) == other@.take(i as int),
            decreases self.terms.len() - i,
        {
            let equal = match (&self.terms[i], &other.terms[i]) {
                (Some(a), Some(b)) => a.same(b),
                (None, None) => true,
                _ => false,
            };
            if !equal {
                assert(self@[i as int] != other@[i as int]);
                return false;
            }
            assert(self@.take(i + 1) =~= self@.take(i as int).push(self@[i as int]));
            assert(other@.take(i + 1) =~= other@.take(i as int).push(other@[i as int]));
            i += 1;
        }
        assert(self@ =~= self@.take(self.terms.len() as int));
        assert(other@ =~= other@.take(other.terms.len() as int));
        true
    }
}

/// The byte strings of a list of commit ids.
pub open spec fn ids_view(ids: Seq<CommitId>) -> Seq<Seq<u8>> {
    ids.map_values(|id: CommitId| id@)
}

/// Whether `id` is among `ids`.
pub fn contains_id(ids: &Vec<CommitId>, id: &CommitId) -> (r: bool)
    ensures
        r == ids_view(ids@).contains(id@),
{
    let mut i: usize = 0;
    while i < ids.len()
        invariant
            i <= ids.len(),
            forall|j: int| 0 <= j < i ==> ids_view(ids@)[j] != id@,
        decreases ids.len() - i,
    {
        if ids[i].same(id) {
            assert(ids_view(ids@)[i as int] == id@);
            return true;
        }
        i += 1;
    }
    false
}

/// Whether a remote ref has been merged into the local ref of its name.
#[derive(Clone, Copy, Debug, PartialEq, Eq)]
pub enum RemoteRefState {
    /// The remote ref is not merged into the local ref.
    New,
    /// The remote ref is merged into the local ref, and what comes in will be too.
    Tracking,
}

/// A branch as one remote has it.
#[derive(Clone, Debug, PartialEq, Eq)]
pub struct RemoteRef {
    pub remote_name: String,
    pub target: RefTarget,
    pub state: RemoteRefState,
}

impl RemoteRef {
    pub open spec fn is_tracking_spec(&self) -> bool {
        self.state is Tracking
    }

    /// Whether the remote ref is meant to be merged into the local ref.
    pub fn is_tracking(&self) -> (r: bool)
        ensures
            r == self.is_tracking_spec(),
    {
        match self.state {
            RemoteRefState::Tracking => true,
            RemoteRefState::New => false,
        }
    }
}

/// The local and the remote refs of one branch name.
#[derive(Clone, Debug, PartialEq, Eq)]
pub struct Branch {
    pub name: String,
    /// What the branch points to locally; absent if only remotes have it.
    pub local_target: RefTarget,
    /// The remotes that have the branch, in the order of their names.
    pub remote_refs: Vec<RemoteRef>,
}

/// A tag or a Git ref.
#[derive(Clone, Debug, PartialEq, Eq)]
pub struct NamedRef {
    pub name: String,
    pub target: RefTarget,
}

/// The commit that a workspace has checked out.
#[derive(Clone, Debug, PartialEq, Eq)]
pub struct WorkingCopy {
    pub workspace_id: String,
    pub commit_id: CommitId,
}

/// How the repository looks at one moment.
#[derive(Clone, Debug, PartialEq, Eq)]
pub struct RepoView {
    /// The branches, in the order of their names.
    pub branches: Vec<Branch>,
    pub tags: Vec<NamedRef>,
    pub git_refs: Vec<NamedRef>,
    /// What the Git HEAD points to.
    pub git_head: RefTarget,
    /// One entry per workspace, in no particular order.
    pub wc_commit_ids: Vec<WorkingCopy>,
}

/// The repository at one moment: its view and the commit that every history
/// starts from.
#[derive(Clone, Debug, PartialEq, Eq)]
pub struct Repo {
    pub view: RepoView,
    pub root_commit_id: CommitId,
}

/// The identity of the tree of a commit: the tree ids that are the terms of
/// its merge. A tree without conflict has a single term, whether it was
/// written as a merge or not.
#[derive(Clone, Debug, PartialEq, Eq)]
pub struct MergedTreeId {
    pub terms: Vec<Vec<u8>>,
}

/// The byte strings of a list of tree ids.
pub open spec fn tree_terms_view(terms: Seq<Vec<u8>>) -> Seq<Seq<u8>> {
    terms.map_values(|t: Vec<u8>| t@)
}

impl View for MergedTreeId {
    type V = Seq<Seq<u8>>;

    open spec fn view(&self) -> Seq<Seq<u8>> {
        tree_terms_view(self.terms@)
    }
}

/// Whether two lists of tree ids hold the same byte strings in the same order.
fn same_terms(a: &Vec<Vec<u8>>, b: &Vec<Vec<u8>>) -> (r: bool)
    ensures
        r == (tree_terms_view(a@) == tree_terms_view(b@)),
{
    let ghost av = tree_terms_view(a@);
    let ghost bv = tree_terms_view(b@);
    if a.len() != b.len() {
        assert(av.len() != bv.len());
        return false;
    }
    let mut i: usize = 0;
    while i < a.len()
        invariant
            a.len() == b.len(),
            i <= a.len(),
            av == tree_terms_view(a@),
            bv == tree_terms_view(b@),
            av.take(i as int) == bv.take(i as int),
        decreases a.len() - i,
    {
        if !same_bytes(&a[i], &b[i]) {
            assert(av[i as int] != bv[i as int]);
            return false;
        }
        assert(av.take(i + 1) =~= av.take(i as int).push(av[i as int]));
        assert(bv.take(i + 1) =~= bv.take(i as int).push(bv[i as int]));
        i += 1;
    }
    assert(av =~= av.take(a.len() as int));
    assert(bv =~= bv.take(b.len() as int));
    true
}

impl MergedTreeId {
    /// Whether two tree ids have the same terms.
    pub fn same(&self, other: &MergedTreeId) -> (r: bool)
        ensures
            r == (self@ == other@),
    {
        same_terms(&self.terms, &other.terms)
    }
}

/// When something was done, and in which time zone.
#[derive(Clone, Debug, PartialEq, Eq)]
pub struct Timestamp {
    pub millis_since_epoch: i64,
    /// The offset from UTC in minutes.
    pub tz_offset: i32,
}

/// Who did something, and when.
#[derive(Clone, Debug, PartialEq, Eq)]
pub struct Signature {
    pub name: String,
    pub email: String,
    pub timestamp: Timestamp,
}

impl Signature {
    /// A copy of this signature.
    pub fn duplicate(&self) -> (r: Signature)
        ensures
            r == *self,
    {
        Signature {
            name: self.name.clone(),
            email: self.email.clone(),
            timestamp: Timestamp {
                millis_since_epoch: self.timestamp.millis_since_epoch,
                tz_offset: self.timestamp.tz_offset,
            },
        }
    }
}

/// A commit, as far as the templater reads it.
#[derive(Clone, Debug, PartialEq, Eq)]
pub struct Commit {
    pub id: CommitId,
    pub change_id: ChangeId,
    pub description: String,
    pub tree_id: MergedTreeId,
    pub author: Signature,
    pub committer: Signature,
}

/// Something that only the repository can tell about a commit.
#[derive(Clone, Copy, Debug, PartialEq, Eq)]
pub enum Fact {
    /// The parents of the commit.
    Parents,
    /// The tree that merging the trees of the parents gives.
    MergedParentTree,
    /// The visible commits of the change of the commit.
    VisibleCommits,
    /// The length of the shortest prefix of the commit id that no other commit
    /// id shares.
    CommitIdUniqueLen,
    /// The same for the change id, among the change ids.
    ChangeIdUniqueLen,
    /// Whether the tree of the commit holds an unresolved conflict.
    HasConflict,
}

/// What the repository has told about one commit so far. A fact that has not
/// been asked for is `None`.
#[derive(Clone, Debug, PartialEq, Eq)]
pub struct CommitFacts {
    /// The parents of the commit, in their order.
    pub parents: Option<Vec<Commit>>,
    pub merged_parent_tree: Option<MergedTreeId>,
    /// The visible commits of the change, which has none if the inner value is
    /// `None`.
    pub visible_commits: Option<Option<Vec<CommitId>>>,
    pub commit_id_unique_len: Option<usize>,
    pub change_id_unique_len: Option<usize>,
    pub has_conflict: Option<bool>,
}

impl CommitFacts {
    /// Nothing asked, nothing told.
    pub fn new() -> (r: CommitFacts)
        ensures
            r.parents is None,
            r.merged_parent_tree is None,
            r.visible_commits is None,
            r.commit_id_unique_len is None,
            r.change_id_unique_len is None,
            r.has_conflict is None,
    {
        CommitFacts {
            parents: None,
            merged_parent_tree: None,
            visible_commits: None,
            commit_id_unique_len: None,
            change_id_unique_len: None,
            has_conflict: None,
        }
    }

    /// Whether a fact has been told.
    pub open spec fn has_spec(&self, fact: Fact) -> bool {
        match fact {
            Fact::Parents => self.parents is Some,
            Fact::MergedParentTree => self.merged_parent_tree is Some,
            Fact::VisibleCommits => self.visible_commits is Some,
            Fact::CommitIdUniqueLen => self.commit_id_unique_len is Some,
            Fact::ChangeIdUniqueLen => self.change_id_unique_len is Some,
            Fact::HasConflict => self.has_conflict is Some,
        }
    }

    pub fn has(&self, fact: Fact) -> (r: bool)
        ensures
            r == self.has_spec(fact),
    {
        match fact {
            Fact::Parents => self.parents.is_some(),
            Fact::MergedParentTree => self.merged_parent_tree.is_some(),
            Fact::VisibleCommits => self.visible_commits.is_some(),
            Fact::CommitIdUniqueLen => self.commit_id_unique_len.is_some(),
            Fact::ChangeIdUniqueLen => self.change_id_unique_len.is_some(),
            Fact::HasConflict => self.has_conflict.is_some(),
        }
    }
}

} // verus!
