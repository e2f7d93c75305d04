//! The indexes of ref names of one session, each built the first time it is
//! asked for and kept from then on.

use vstd::prelude::*;
use std::rc::Rc;
use once_cell::unsync::OnceCell;
use crate::ref_names::{
    branches_names, build_branches_index, build_ref_names_index, plain_names, RefNamesIndex,
};
use crate::repo::{NamedRef, RepoView};

verus! {

#[verifier::external_type_specification]
#[verifier::external_body]
#[verifier::reject_recursive_types(T)]
pub struct ExOnceCell<T>(OnceCell<T>);

/// What a cell holds: no index, or the one it was set to.
pub uninterp spec fn cell_items(cell: OnceCell<Rc<RefNamesIndex>>) -> Seq<RefNamesIndex>;

/// `OnceCell::new`: a cell that holds nothing.
#[verifier::external_body]
fn empty_cell() -> (cell: OnceCell<Rc<RefNamesIndex>>)
    ensures
        cell_items(cell).len() == 0,
{
    OnceCell::new()
}

/// `OnceCell::get`: the index that the cell holds, if it holds one. The index
/// is shared, not copied.
#[verifier::external_body]
fn cell_get(cell: &OnceCell<Rc<RefNamesIndex>>) -> (r: Option<Rc<RefNamesIndex>>)
    ensures
        match r {
            Some(index) => cell_items(*cell) == seq![*index],
            None => cell_items(*cell).len() == 0,
        },
{
    cell.get().cloned()
}

/// `OnceCell::set`: an empty cell then holds the index, and a full one keeps
/// what it has.
#[verifier::external_body]
fn cell_set(cell: &mut OnceCell<Rc<RefNamesIndex>>, index: Rc<RefNamesIndex>)
    ensures
        cell_items(*final(cell)) == if cell_items(*old(cell)).len() == 0 {
            seq![*index]
        } else {
            cell_items(*old(cell))
        },
{
    let _ = cell.set(index);
}

/// The indexes of branches, tags and Git refs of one view.
pub struct CommitKeywordCache {
    branches_index: OnceCell<Rc<RefNamesIndex>>,
    tags_index: OnceCell<Rc<RefNamesIndex>>,
    git_refs_index: OnceCell<Rc<RefNamesIndex>>,
}

impl Default for CommitKeywordCache {
    fn default() -> (r: CommitKeywordCache)
        ensures
            forall|view: RepoView| #[trigger] r.wf(view),
    {
        CommitKeywordCache::new()
    }
}

/// Whether an index lists the branches of a view.
pub open spec fn indexes_branches(index: RefNamesIndex, view: RepoView) -> bool {
    forall|id: Seq<u8>|
        #[trigger] index.names(id) == branches_names(
            view.branches@,
            view.branches@.len() as int,
            id,
        )
}

/// Whether an index lists the given tags or Git refs.
pub open spec fn indexes_refs(index: RefNamesIndex, refs: Seq<NamedRef>) -> bool {
    forall|id: Seq<u8>| #[trigger] index.names(id) == plain_names(refs, refs.len() as int, id)
}

/// The index that a cell holds, if it holds one.
pub open spec fn built(cell: OnceCell<Rc<RefNamesIndex>>) -> Option<RefNamesIndex> {
    if cell_items(cell).len() == 0 {
        None
    } else {
        Some(cell_items(cell)[0])
    }
}

impl CommitKeywordCache {
    /// The index of the branches, if it has been built.
    pub closed spec fn branches_built(&self) -> Option<RefNamesIndex> {
        built(self.branches_index)
    }

    /// The index of the tags, if it has been built.
    pub closed spec fn tags_built(&self) -> Option<RefNamesIndex> {
        built(self.tags_index)
    }

    /// The index of the Git refs, if it has been built.
    pub closed spec fn git_refs_built(&self) -> Option<RefNamesIndex> {
        built(self.git_refs_index)
    }

    /// Whether each index that has been built is that of `view`.
    pub closed spec fn wf(&self, view: RepoView) -> bool {
        &&& forall|i: int|
            0 <= i < cell_items(self.branches_index).len() ==> indexes_branches(
                #[trigger] cell_items(self.branches_index)[i],
                view,
            )
        &&& forall|i: int|
            0 <= i < cell_items(self.tags_index).len() ==> indexes_refs(
                #[trigger] cell_items(self.tags_index)[i],
                view.tags@,
            )
        &&& forall|i: int|
            0 <= i < cell_items(self.git_refs_index).len() ==> indexes_refs(
                #[trigger] cell_items(self.git_refs_index)[i],
                view.git_refs@,
            )
    }

    /// The cache with nothing built, which fits any view.
    pub fn new() -> (r: CommitKeywordCache)
        ensures
            forall|view: RepoView| #[trigger] r.wf(view),
            r.branches_built() is None,
            r.tags_built() is None,
            r.git_refs_built() is None,
    {
        CommitKeywordCache {
            branches_index: empty_cell(),
            tags_index: empty_cell(),
            git_refs_index: empty_cell(),
        }
    }

    /// The index of the branches, built now from `view` if it has not been built.
    /// A cache that is only ever asked with one view holds the indexes of that
    /// view.
    pub fn branches_index(&mut self, view: &RepoView) -> (r: Rc<RefNamesIndex>)
        ensures
            old(self).wf(*view) ==> final(self).wf(*view) && indexes_branches(*r, *view),
            old(self).branches_built() is None ==> indexes_branches(*r, *view),
            old(self).branches_built() matches Some(index) ==> *r == index,
            final(self).branches_built() == Some(*r),
            final(self).tags_built() == old(self).tags_built(),
            final(self).git_refs_built() == old(self).git_refs_built(),
    {
        match cell_get(&self.branches_index) {
            Some(index) => {
                assert(cell_items(self.branches_index)[0] == *index);
                index
            },
            None => {
                let index = Rc::new(build_branches_index(view));
                cell_set(&mut self.branches_index, index.clone());
                index
            },
        }
    }

    /// The index of the tags, built now from `view` if it has not been built.
    pub fn tags_index(&mut self, view: &RepoView) -> (r: Rc<RefNamesIndex>)
        ensures
            old(self).wf(*view) ==> final(self).wf(*view) && indexes_refs(*r, view.tags@),
            old(self).tags_built() is None ==> indexes_refs(*r, view.tags@),
            old(self).tags_built() matches Some(index) ==> *r == index,
            final(self).tags_built() == Some(*r),
            final(self).branches_built() == old(self).branches_built(),
            final(self).git_refs_built() == old(self).git_refs_built(),
    {
        match cell_get(&self.tags_index) {
            Some(index) => {
                assert(cell_items(self.tags_index)[0] == *index);
                index
            },
            None => {
                let index = Rc::new(build_ref_names_index(&view.tags));
                cell_set(&mut self.tags_index, index.clone());
                index
            },
        }
    }

    /// The index of the Git refs, built now from `view` if it has not been built.
    pub fn git_refs_index(&mut self, view: &RepoView) -> (r: Rc<RefNamesIndex>)
        ensures
            old(self).wf(*view) ==> final(self).wf(*view) && indexes_refs(*r, view.git_refs@),
            old(self).git_refs_built() is None ==> indexes_refs(*r, view.git_refs@),
            old(self).git_refs_built() matches Some(index) ==> *r == index,
            final(self).git_refs_built() == Some(*r),
            final(self).branches_built() == old(self).branches_built(),
            final(self).tags_built() == old(self).tags_built(),
    {
        match cell_get(&self.git_refs_index) {
            Some(index) => {
                assert(cell_items(self.git_refs_index)[0] == *index);
                index
            },
            None => {
                let index = Rc::new(build_ref_names_index(&view.git_refs));
                cell_set(&mut self.git_refs_index, index.clone());
                index
            },
        }
    }
}

} // verus!
