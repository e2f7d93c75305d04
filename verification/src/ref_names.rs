//! Names of branches, tags and Git refs, and the index that finds the names
//! that point to a commit.

use vstd::prelude::*;
use std::collections::HashMap;
use crate::ids::CommitId;
use crate::repo::{ids_view, Branch, NamedRef, RefTarget, RemoteRef, RepoView};

verus! {

/// A branch, tag or Git ref name, with what is known of its state.
#[derive(Clone, Debug, PartialEq, Eq)]
pub struct RefName {
    /// The local name.
    pub name: String,
    /// The remote's name, if this is a ref of a remote or of the Git repository.
    pub remote: Option<String>,
    /// Whether the target of the ref is conflicted.
    pub conflict: bool,
    /// For a local ref, whether every tracking remote points where it does; for a
    /// remote ref, whether it is tracking and points where the local ref does.
    pub synced: bool,
}

/// What a `RefName` holds, as mathematical values.
pub struct RefNameView {
    pub name: Seq<char>,
    pub remote: Option<Seq<char>>,
    pub conflict: bool,
    pub synced: bool,
}

impl View for RefName {
    type V = RefNameView;

    open spec fn view(&self) -> RefNameView {
        RefNameView {
            name: self.name@,
            remote: match self.remote {
                Some(r) => Some(r@),
                None => None,
            },
            conflict: self.conflict,
            synced: self.synced,
        }
    }
}

/// The views of a list of names.
pub open spec fn names_view(names: Seq<RefName>) -> Seq<RefNameView> {
    names.map_values(|n: RefName| n@)
}

impl RefName {
    pub fn is_local(&self) -> (r: bool)
        ensures
            r == (self@.remote is None),
            r == !(self@.remote is Some),
    {
        self.remote.is_none()
    }

    pub fn is_remote(&self) -> (r: bool)
        ensures
            r == (self@.remote is Some),
    {
        self.remote.is_some()
    }

    /// A copy of this name.
    pub fn duplicate(&self) -> (r: RefName)
        ensures
            r@ == self@,
    {
        RefName {
            name: self.name.clone(),
            remote: match &self.remote {
                Some(r) => Some(r.clone()),
                None => None,
            },
            conflict: self.conflict,
            synced: self.synced,
        }
    }
}

/// The names that point to one commit, in the order in which they were found.
#[derive(Debug)]
struct IndexEntry {
    id: CommitId,
    names: Vec<RefName>,
}

/// From a commit to the names that point to it. The entries are kept in a hash
/// map under a number taken from the commit id, so that finding the names of a
/// commit does not take longer as the index grows.
#[derive(Debug)]
pub struct RefNamesIndex {
    buckets: HashMap<u64, Vec<IndexEntry>>,
}

impl Default for RefNamesIndex {
    fn default() -> (r: RefNamesIndex)
        ensures
            forall|id: Seq<u8>| #[trigger] r.names(id) == Seq::<RefNameView>::empty(),
    {
        RefNamesIndex::new()
    }
}

/// How often `id` occurs in `ids`.
pub open spec fn occurrences(ids: Seq<Seq<u8>>, id: Seq<u8>) -> nat
    decreases ids.len(),
{
    if ids.len() == 0 {
        0
    } else {
        occurrences(ids.drop_last(), id) + if ids.last() == id {
            1nat
        } else {
            0nat
        }
    }
}

/// `name`, `count` times over.
pub open spec fn repeated(name: RefNameView, count: nat) -> Seq<RefNameView> {
    Seq::new(count, |i: int| name)
}

/// Whether no commit has two entries.
spec fn distinct(entries: Seq<IndexEntry>) -> bool {
    forall|i: int, j: int|
        0 <= i < j < entries.len() ==> (#[trigger] entries[i]).id@ != (#[trigger] entries[j]).id@
}

spec fn has_in(entries: Seq<IndexEntry>, id: Seq<u8>) -> bool {
    exists|i: int| 0 <= i < entries.len() && (#[trigger] entries[i]).id@ == id
}

spec fn slot_in(entries: Seq<IndexEntry>, id: Seq<u8>) -> int {
    choose|i: int| 0 <= i < entries.len() && (#[trigger] entries[i]).id@ == id
}

/// The names that the entries hold for the commit `id`; none if no entry is
/// for it.
spec fn names_in(entries: Seq<IndexEntry>, id: Seq<u8>) -> Seq<RefNameView> {
    if has_in(entries, id) {
        names_view(entries[slot_in(entries, id)].names@)
    } else {
        Seq::empty()
    }
}

proof fn lemma_entry(entries: Seq<IndexEntry>, j: int)
    requires
        distinct(entries),
        0 <= j < entries.len(),
    ensures
        has_in(entries, entries[j].id@),
        slot_in(entries, entries[j].id@) == j,
        names_in(entries, entries[j].id@) == names_view(entries[j].names@),
{
    let id = entries[j].id@;
    assert(has_in(entries, id));
    let s = slot_in(entries, id);
    assert(0 <= s < entries.len() && entries[s].id@ == id);
    if s < j {
        assert(entries[s].id@ != entries[j].id@);
    }
    if j < s {
        assert(entries[j].id@ != entries[s].id@);
    }
}

proof fn lemma_missing(entries: Seq<IndexEntry>, id: Seq<u8>)
    requires
        forall|j: int| 0 <= j < entries.len() ==> (#[trigger] entries[j]).id@ != id,
    ensures
        !has_in(entries, id),
        names_in(entries, id) == Seq::<RefNameView>::empty(),
{
}

/// Adds `name` to the names of one commit.
fn add_name(entries: &mut Vec<IndexEntry>, id: &CommitId, name: RefName)
    requires
        distinct(old(entries)@),
    ensures
        distinct(final(entries)@),
        forall|k: Seq<u8>|
            #[trigger] names_in(final(entries)@, k) == if k == id@ {
                names_in(old(entries)@, k).push(name@)
            } else {
                names_in(old(entries)@, k)
            },
{
    let ghost before = entries@;
    let mut i: usize = 0;
    while i < entries.len()
        invariant
            i <= entries.len(),
            entries@ == before,
            old(entries)@ == before,
            distinct(before),
            forall|j: int| 0 <= j < i ==> (#[trigger] entries@[j]).id@ != id@,
        decreases entries.len() - i,
    {
        if entries[i].id.same(id) {
            entries[i].names.push(name);
            proof {
                let after = entries@;
                assert(after.len() == before.len());
                assert forall|j: int| 0 <= j < after.len() implies (#[trigger] after[j]).id@
                    == before[j].id@ by {}
                assert(distinct(after));
                assert forall|k: Seq<u8>|
                    #[trigger] names_in(after, k) == if k == id@ {
                        names_in(before, k).push(name@)
                    } else {
                        names_in(before, k)
                    } by {
                    if k == id@ {
                        lemma_entry(before, i as int);
                        lemma_entry(after, i as int);
                        assert(names_view(after[i as int].names@) =~= names_view(
                            before[i as int].names@,
                        ).push(name@));
                    } else if has_in(before, k) {
                        let j = slot_in(before, k);
                        lemma_entry(before, j);
                        lemma_entry(after, j);
                    } else {
                        assert forall|j: int| 0 <= j < after.len() implies (#[trigger] after[j]).id@
                            != k by {
                            assert(before[j].id@ == after[j].id@);
                        }
                        lemma_missing(after, k);
                    }
                }
            }
            return ;
        }
        i += 1;
    }
    let mut names: Vec<RefName> = Vec::new();
    names.push(name);
    entries.push(IndexEntry { id: id.duplicate(), names });
    proof {
        let after = entries@;
        let n = before.len() as int;
        assert(after =~= before.push(after[n]));
        assert forall|j: int| 0 <= j < n implies (#[trigger] after[j]) == before[j] by {}
        assert(distinct(after));
        assert forall|k: Seq<u8>|
            #[trigger] names_in(after, k) == if k == id@ {
                names_in(before, k).push(name@)
            } else {
                names_in(before, k)
            } by {
            if k == id@ {
                lemma_missing(before, k);
                lemma_entry(after, n);
                assert(names_view(after[n].names@) =~= Seq::<RefNameView>::empty().push(name@));
            } else if has_in(before, k) {
                let j = slot_in(before, k);
                lemma_entry(before, j);
                lemma_entry(after, j);
            } else {
                assert forall|j: int| 0 <= j < after.len() implies (#[trigger] after[j]).id@
                    != k by {
                    if j < n {
                        assert(before[j].id@ == after[j].id@);
                    }
                }
                lemma_missing(after, k);
            }
        }
    }
}

/// The number made of the first `n` bytes of an id, at most eight of which
/// count.
spec fn key_upto(bytes: Seq<u8>, n: int) -> u64
    decreases n,
{
    if n <= 0 {
        0
    } else {
        ((key_upto(bytes, n - 1) % 0x100_0000_0000_0000) * 256 + bytes[n - 1]) as u64
    }
}

/// The number under which the entry of a commit is kept.
spec fn slot_key(bytes: Seq<u8>) -> u64 {
    key_upto(
        bytes,
        if bytes.len() < 8 {
            bytes.len() as int
        } else {
            8
        },
    )
}

fn slot_key_of(bytes: &Vec<u8>) -> (key: u64)
    ensures
        key == slot_key(bytes@),
{
    let n: usize = if bytes.len() < 8 {
        bytes.len()
    } else {
        8
    };
    let mut key: u64 = 0;
    let mut i: usize = 0;
    while i < n
        invariant
            i <= n <= bytes.len(),
            key == key_upto(bytes@, i as int),
        decreases n - i,
    {
        key = (key % 0x100_0000_0000_0000) * 256 + bytes[i] as u64;
        i += 1;
    }
    key
}

impl RefNamesIndex {
    /// No commit has two entries.
    #[verifier::type_invariant]
    closed spec fn wf(&self) -> bool {
        forall|key: u64| #[trigger]
            self.buckets@.contains_key(key) ==> distinct(self.buckets@[key]@)
    }

    /// The names that point to the commit `id`, in the order in which they came
    /// in; none if nothing points to it.
    pub closed spec fn names(&self, id: Seq<u8>) -> Seq<RefNameView> {
        if self.buckets@.contains_key(slot_key(id)) {
            names_in(self.buckets@[slot_key(id)]@, id)
        } else {
            Seq::empty()
        }
    }

    /// The index without any name.
    pub fn new() -> (r: RefNamesIndex)
        ensures
            forall|id: Seq<u8>| #[trigger] r.names(id) == Seq::<RefNameView>::empty(),
    {
        RefNamesIndex { buckets: HashMap::new() }
    }

    /// Adds `name` to the names of one commit.
    fn insert_one(&mut self, id: &CommitId, name: RefName)
        ensures
            forall|k: Seq<u8>|
                #[trigger] final(self).names(k) == if k == id@ {
                    old(self).names(k).push(name@)
                } else {
                    old(self).names(k)
                },
    {
        broadcast use vstd::std_specs::hash::group_hash_axioms;

        proof {
            use_type_invariant(&*self);
        }
        let key = slot_key_of(&id.bytes);
        let mut buckets: HashMap<u64, Vec<IndexEntry>> = HashMap::new();
        std::mem::swap(&mut self.buckets, &mut buckets);
        let ghost before = buckets@;
        let mut bucket = match buckets.remove(&key) {
            Some(bucket) => bucket,
            None => Vec::new(),
        };
        let ghost bucket_before = bucket@;
        proof {
            if !before.contains_key(key) {
                assert forall|k: Seq<u8>| #[trigger]
                    names_in(bucket_before, k) == Seq::<RefNameView>::empty() by {
                    lemma_missing(bucket_before, k);
                }
            }
        }
        add_name(&mut bucket, id, name);
        buckets.insert(key, bucket);
        proof {
            assert(buckets@ == before.insert(key, bucket));
            assert forall|other: u64| #[trigger] buckets@.contains_key(other) implies distinct(
                buckets@[other]@,
            ) by {
                if other != key {
                    assert(before.contains_key(other));
                }
            }
        }
        std::mem::swap(&mut self.buckets, &mut buckets);
    }

    /// Adds `name` to the names of each commit in `ids`, once for each time the
    /// commit is listed.
    pub fn insert(&mut self, ids: &Vec<CommitId>, name: RefName)
        ensures
            forall|k: Seq<u8>|
                #[trigger] final(self).names(k) == old(self).names(k) + repeated(
                    name@,
                    occurrences(ids_view(ids@), k),
                ),
    {
        let ghost before = *self;
        let mut i: usize = 0;
        proof {
            assert(ids_view(ids@).take(0) =~= Seq::<Seq<u8>>::empty());
            assert forall|k: Seq<u8>|
                #[trigger] self.names(k) == before.names(k) + repeated(
                    name@,
                    occurrences(ids_view(ids@).take(0), k),
                ) by {
                assert(before.names(k) + repeated(name@, 0) =~= before.names(k));
            }
        }
        while i < ids.len()
            invariant
                i <= ids.len(),
                forall|k: Seq<u8>|
                    #[trigger] self.names(k) == before.names(k) + repeated(
                        name@,
                        occurrences(ids_view(ids@).take(i as int), k),
                    ),
            decreases ids.len() - i,
        {
            let ghost mid = *self;
            self.insert_one(&ids[i], name.duplicate());
            proof {
                let done = ids_view(ids@).take(i as int);
                let next = ids_view(ids@).take(i + 1);
                assert(next.drop_last() =~= done);
                assert(next.last() == ids@[i as int]@);
                assert forall|k: Seq<u8>|
                    #[trigger] self.names(k) == before.names(k) + repeated(
                        name@,
                        occurrences(next, k),
                    ) by {
                    assert(mid.names(k) == before.names(k) + repeated(name@, occurrences(done, k)));
                    if k == ids@[i as int]@ {
                        assert(repeated(name@, occurrences(done, k)).push(name@) =~= repeated(
                            name@,
                            occurrences(next, k),
                        ));
                        assert((before.names(k) + repeated(name@, occurrences(done, k))).push(
                            name@,
                        ) =~= before.names(k) + repeated(name@, occurrences(done, k)).push(name@));
                    }
                }
            }
            i += 1;
        }
        assert(ids_view(ids@).take(ids.len() as int) =~= ids_view(ids@));
    }

    /// The names that point to a commit, in the order in which they came in.
    pub fn get(&self, id: &CommitId) -> (r: &[RefName])
        ensures
            names_view(r@) == self.names(id@),
    {
        broadcast use vstd::std_specs::hash::group_hash_axioms;

        proof {
            use_type_invariant(self);
        }
        let key = slot_key_of(&id.bytes);
        match self.buckets.get(&key) {
            Some(bucket) => {
                let mut i: usize = 0;
                while i < bucket.len()
                    invariant
                        i <= bucket.len(),
                        key == slot_key(id@),
                        self.buckets@.contains_key(key),
                        self.buckets@[key] == *bucket,
                        distinct(bucket@),
                        forall|j: int| 0 <= j < i ==> (#[trigger] bucket@[j]).id@ != id@,
                    decreases bucket.len() - i,
                {
                    if bucket[i].id.same(id) {
                        proof {
                            lemma_entry(bucket@, i as int);
                        }
                        return bucket[i].names.as_slice();
                    }
                    i += 1;
                }
                proof {
                    lemma_missing(bucket@, id@);
                }
            },
            None => {},
        }
        let none: &[RefName] = &[];
        assert(names_view(none@) =~= Seq::<RefNameView>::empty());
        none
    }
}

} // verus!

verus! {

/// Whether each of the first `upto` remotes of a branch either does not track
/// it or points where the local ref does.
pub open spec fn tracking_remotes_agree(branch: Branch, upto: int) -> bool {
    forall|i: int|
        0 <= i < upto ==> {
            let remote = #[trigger] branch.remote_refs@[i];
            !remote.is_tracking_spec() || remote.target@ == branch.local_target@
        }
}

/// The name under which the local ref of a branch is listed.
pub open spec fn local_ref_name(branch: Branch) -> RefNameView {
    RefNameView {
        name: branch.name@,
        remote: None,
        conflict: branch.local_target.has_conflict_spec(),
        synced: tracking_remotes_agree(branch, branch.remote_refs@.len() as int),
    }
}

/// The name under which the ref that remote `i` has of a branch is listed.
pub open spec fn remote_ref_name(branch: Branch, i: int) -> RefNameView {
    let remote = branch.remote_refs@[i];
    RefNameView {
        name: branch.name@,
        remote: Some(remote.remote_name@),
        conflict: remote.target.has_conflict_spec(),
        synced: remote.is_tracking_spec() && remote.target@ == branch.local_target@,
    }
}

/// The name under which a tag or a Git ref is listed.
pub open spec fn plain_ref_name(named: NamedRef) -> RefNameView {
    RefNameView {
        name: named.name@,
        remote: None,
        conflict: named.target.has_conflict_spec(),
        synced: true,
    }
}

/// What a ref adds to the names of the commit `id`: its name, once for each
/// time its target lists that commit as added.
pub open spec fn target_names(target: RefTarget, name: RefNameView, id: Seq<u8>) -> Seq<
    RefNameView,
> {
    repeated(name, occurrences(target.added_ids_spec(), id))
}

/// What the local ref of a branch adds to the names of the commit `id`.
pub open spec fn local_names(branch: Branch, id: Seq<u8>) -> Seq<RefNameView> {
    if branch.local_target.is_present_spec() {
        target_names(branch.local_target, local_ref_name(branch), id)
    } else {
        Seq::empty()
    }
}

/// What the first `upto` remotes of a branch add to the names of the commit `id`.
pub open spec fn remote_names(branch: Branch, upto: int, id: Seq<u8>) -> Seq<RefNameView>
    decreases upto,
{
    if upto <= 0 {
        Seq::empty()
    } else {
        remote_names(branch, upto - 1, id) + target_names(
            branch.remote_refs@[upto - 1].target,
            remote_ref_name(branch, upto - 1),
            id,
        )
    }
}

/// What a branch adds to the names of the commit `id`: the local ref first,
/// then the remote refs in their order.
pub open spec fn branch_names(branch: Branch, id: Seq<u8>) -> Seq<RefNameView> {
    local_names(branch, id) + remote_names(branch, branch.remote_refs@.len() as int, id)
}

/// What the first `upto` branches add to the names of the commit `id`.
pub open spec fn branches_names(branches: Seq<Branch>, upto: int, id: Seq<u8>) -> Seq<
    RefNameView,
>
    decreases upto,
{
    if upto <= 0 {
        Seq::empty()
    } else {
        branches_names(branches, upto - 1, id) + branch_names(branches[upto - 1], id)
    }
}

/// What the first `upto` tags or Git refs add to the names of the commit `id`.
pub open spec fn plain_names(refs: Seq<NamedRef>, upto: int, id: Seq<u8>) -> Seq<RefNameView>
    decreases upto,
{
    if upto <= 0 {
        Seq::empty()
    } else {
        plain_names(refs, upto - 1, id) + target_names(
            refs[upto - 1].target,
            plain_ref_name(refs[upto - 1]),
            id,
        )
    }
}

/// Whether every tracking remote of a branch points where the local ref does.
fn all_tracking_synced(branch: &Branch) -> (r: bool)
    ensures
        r == tracking_remotes_agree(*branch, branch.remote_refs@.len() as int),
{
    let mut i: usize = 0;
    while i < branch.remote_refs.len()
        invariant
            i <= branch.remote_refs.len(),
            tracking_remotes_agree(*branch, i as int),
        decreases branch.remote_refs.len() - i,
    {
        let remote = &branch.remote_refs[i];
        if remote.is_tracking() && !remote.target.same(&branch.local_target) {
            return false;
        }
        i += 1;
    }
    true
}

/// Indexes the branches of a view: for each branch the local ref, if it is
/// present, and then each remote ref, under every commit its target adds.
pub fn build_branches_index(view: &RepoView) -> (index: RefNamesIndex)
    ensures
        forall|id: Seq<u8>|
            #[trigger] index.names(id) == branches_names(
                view.branches@,
                view.branches@.len() as int,
                id,
            ),
{
    let mut index = RefNamesIndex::new();
    let mut i: usize = 0;
    while i < view.branches.len()
        invariant
            i <= view.branches.len(),
            forall|id: Seq<u8>|
                #[trigger] index.names(id) == branches_names(view.branches@, i as int, id),
        decreases view.branches.len() - i,
    {
        let branch = &view.branches[i];
        let ghost done = index;
        if branch.local_target.is_present() {
            let ref_name = RefName {
                name: branch.name.clone(),
                remote: None,
                conflict: branch.local_target.has_conflict(),
                synced: all_tracking_synced(branch),
            };
            assert(ref_name@ == local_ref_name(*branch));
            let ids = branch.local_target.added_ids();
            index.insert(&ids, ref_name);
        }
        proof {
            assert forall|id: Seq<u8>|
                #[trigger] index.names(id) == done.names(id) + local_names(*branch, id)
                    + remote_names(*branch, 0, id) by {
                assert(done.names(id) + Seq::<RefNameView>::empty() =~= done.names(id));
                assert(index.names(id) + Seq::<RefNameView>::empty() =~= index.names(id));
            }
        }
        let mut j: usize = 0;
        while j < branch.remote_refs.len()
            invariant
                j <= branch.remote_refs.len(),
                forall|id: Seq<u8>|
                    #[trigger] index.names(id) == done.names(id) + local_names(*branch, id)
                        + remote_names(*branch, j as int, id),
            decreases branch.remote_refs.len() - j,
        {
            let remote = &branch.remote_refs[j];
            let ghost mid = index;
            let ref_name = RefName {
                name: branch.name.clone(),
                remote: Some(remote.remote_name.clone()),
                conflict: remote.target.has_conflict(),
                synced: remote.is_tracking() && remote.target.same(&branch.local_target),
            };
            assert(ref_name@ == remote_ref_name(*branch, j as int));
            let ids = remote.target.added_ids();
            index.insert(&ids, ref_name);
            proof {
                assert forall|id: Seq<u8>|
                    #[trigger] index.names(id) == done.names(id) + local_names(*branch, id)
                        + remote_names(*branch, j + 1, id) by {
                    let head = done.names(id) + local_names(*branch, id);
                    let tail = remote_names(*branch, j as int, id);
                    let more = target_names(remote.target, remote_ref_name(*branch, j as int), id);
                    assert(mid.names(id) == head + tail);
                    assert((head + tail) + more =~= head + (tail + more));
                }
            }
            j += 1;
        }
        proof {
            assert forall|id: Seq<u8>|
                #[trigger] index.names(id) == branches_names(view.branches@, i + 1, id) by {
                let head = done.names(id);
                let local = local_names(*branch, id);
                let remote = remote_names(*branch, branch.remote_refs@.len() as int, id);
                assert((head + local) + remote =~= head + (local + remote));
            }
        }
        i += 1;
    }
    index
}

/// Indexes tags or Git refs: each under every commit its target adds.
pub fn build_ref_names_index(refs: &Vec<NamedRef>) -> (index: RefNamesIndex)
    ensures
        forall|id: Seq<u8>|
            #[trigger] index.names(id) == plain_names(refs@, refs@.len() as int, id),
{
    let mut index = RefNamesIndex::new();
    let mut i: usize = 0;
    while i < refs.len()
        invariant
            i <= refs.len(),
            forall|id: Seq<u8>| #[trigger] index.names(id) == plain_names(refs@, i as int, id),
        decreases refs.len() - i,
    {
        let named = &refs[i];
        let ref_name = RefName {
            name: named.name.clone(),
            remote: None,
            conflict: named.target.has_conflict(),
            synced: true,
        };
        assert(ref_name@ == plain_ref_name(*named));
        let ids = named.target.added_ids();
        index.insert(&ids, ref_name);
        i += 1;
    }
    index
}

/// A commit that a list holds occurs in it at least once.
pub proof fn lemma_listed_occurs(ids: Seq<Seq<u8>>, id: Seq<u8>)
    requires
        ids.contains(id),
    ensures
        occurrences(ids, id) > 0,
    decreases ids.len(),
{
    if ids.last() != id {
        let i = choose|i: int| 0 <= i < ids.len() && ids[i] == id;
        assert(ids.drop_last()[i] == id);
        lemma_listed_occurs(ids.drop_last(), id);
    }
}

/// What a branch adds to the names of a commit is among what the branches up
/// to and beyond it add.
pub proof fn lemma_branch_names_listed(
    branches: Seq<Branch>,
    upto: int,
    i: int,
    id: Seq<u8>,
    name: RefNameView,
)
    requires
        0 <= i < upto <= branches.len(),
        branch_names(branches[i], id).contains(name),
    ensures
        branches_names(branches, upto, id).contains(name),
    decreases upto,
{
    let head = branches_names(branches, upto - 1, id);
    let tail = branch_names(branches[upto - 1], id);
    if i == upto - 1 {
        let k = choose|k: int| 0 <= k < tail.len() && tail[k] == name;
        assert((head + tail)[head.len() + k] == name);
    } else {
        lemma_branch_names_listed(branches, upto - 1, i, id, name);
        let k = choose|k: int| 0 <= k < head.len() && head[k] == name;
        assert((head + tail)[k] == name);
    }
}

/// The local ref of a branch that no remote has is in step, and it is among
/// the names that the branch adds to every commit that its target adds.
pub proof fn lemma_local_only_branch(branch: Branch, id: Seq<u8>)
    requires
        branch.local_target.is_present_spec(),
        branch.remote_refs@.len() == 0,
        branch.local_target.added_ids_spec().contains(id),
    ensures
        local_ref_name(branch).synced,
        local_ref_name(branch).remote is None,
        branch_names(branch, id).contains(local_ref_name(branch)),
{
    lemma_listed_occurs(branch.local_target.added_ids_spec(), id);
    let names = branch_names(branch, id);
    assert(local_names(branch, id)[0] == local_ref_name(branch));
    assert(names[0] == local_ref_name(branch));
}

/// Where the one remote of a branch tracks it and points elsewhere than the
/// local ref, neither the local ref nor the remote ref is in step.
pub proof fn lemma_diverged_tracking_remote(branch: Branch)
    requires
        branch.remote_refs@.len() == 1,
        branch.remote_refs@[0].is_tracking_spec(),
        branch.remote_refs@[0].target@ != branch.local_target@,
    ensures
        !local_ref_name(branch).synced,
        !remote_ref_name(branch, 0).synced,
{
    let remote = branch.remote_refs@[0];
    assert(!(!remote.is_tracking_spec() || remote.target@ == branch.local_target@));
}

} // verus!
