//! How the values of this library are written out: as pieces of text, some of
//! them under a label by which whoever prints them can tell them apart.

use vstd::prelude::*;
use crate::ids::{CommitOrChangeId, ShortestIdPrefix};
use crate::ref_names::{names_view, RefName, RefNameView};

verus! {

/// A piece of text, with the label it is written under, if any.
#[derive(Clone, Debug, PartialEq, Eq)]
pub struct Fragment {
    pub label: Option<String>,
    pub text: String,
}

/// What a `Fragment` holds, as mathematical values.
pub struct FragmentView {
    pub label: Option<Seq<char>>,
    pub text: Seq<char>,
}

impl View for Fragment {
    type V = FragmentView;

    open spec fn view(&self) -> FragmentView {
        FragmentView {
            label: match self.label {
                Some(l) => Some(l@),
                None => None,
            },
            text: self.text@,
        }
    }
}

/// The views of a list of fragments.
pub open spec fn fragments_view(fragments: Seq<Fragment>) -> Seq<FragmentView> {
    fragments.map_values(|f: Fragment| f@)
}

/// A text under a label.
pub open spec fn labeled(label: Seq<char>, text: Seq<char>) -> FragmentView {
    FragmentView { label: Some(label), text }
}

/// A text without a label.
pub open spec fn plain(text: Seq<char>) -> FragmentView {
    FragmentView { label: None, text }
}

impl Fragment {
    pub fn labeled(label: &str, text: &str) -> (r: Fragment)
        ensures
            r@ == self::labeled(label@, text@),
    {
        Fragment { label: Some(label.to_owned()), text: text.to_owned() }
    }

    pub fn plain(text: &str) -> (r: Fragment)
        ensures
            r@ == self::plain(text@),
    {
        Fragment { label: None, text: text.to_owned() }
    }
}

/// How a ref name is written: the name, then `@` and the remote if it has one,
/// then `??` if it is conflicted, or else `*` if it is local and out of step
/// with a remote. A conflicted ref would not be pushed, so it gets no `*`.
pub open spec fn ref_name_fragments(name: RefNameView) -> Seq<FragmentView> {
    let head = seq![labeled("name"@, name.name)];
    let remote = match name.remote {
        Some(r) => seq![plain("@"@), labeled("remote"@, r)],
        None => Seq::empty(),
    };
    let sigil = if name.conflict {
        seq![plain("??"@)]
    } else if name.remote is None && !name.synced {
        seq![plain("*"@)]
    } else {
        Seq::empty()
    };
    head + remote + sigil
}

/// How a list of ref names is written: each as it is written alone, with one
/// space between neighbours.
pub open spec fn ref_names_fragments(names: Seq<RefNameView>) -> Seq<FragmentView>
    decreases names.len(),
{
    if names.len() == 0 {
        Seq::empty()
    } else if names.len() == 1 {
        ref_name_fragments(names[0])
    } else {
        ref_names_fragments(names.drop_last()) + seq![plain(" "@)] + ref_name_fragments(
            names.last(),
        )
    }
}

/// How a split id is written: the prefix and the rest, each under its label.
pub open spec fn shortest_fragments(prefix: Seq<char>, rest: Seq<char>) -> Seq<FragmentView> {
    seq![labeled("prefix"@, prefix), labeled("rest"@, rest)]
}

/// The texts of the fragments one after the other, without the labels.
pub open spec fn plain_text_of(fragments: Seq<FragmentView>) -> Seq<char>
    decreases fragments.len(),
{
    if fragments.len() == 0 {
        Seq::empty()
    } else {
        plain_text_of(fragments.drop_last()) + fragments.last().text
    }
}

impl RefName {
    pub fn format(&self) -> (r: Vec<Fragment>)
        ensures
            fragments_view(r@) == ref_name_fragments(self@),
    {
        let mut out: Vec<Fragment> = Vec::new();
        out.push(Fragment::labeled("name", self.name.as_str()));
        if let Some(remote) = &self.remote {
            out.push(Fragment::plain("@"));
            out.push(Fragment::labeled("remote", remote.as_str()));
        }
        if self.conflict {
            out.push(Fragment::plain("??"));
        } else if self.is_local() && !self.synced {
            out.push(Fragment::plain("*"));
        }
        assert(fragments_view(out@) =~= ref_name_fragments(self@));
        out
    }
}

/// Writes a list of ref names.
pub fn format_ref_names(names: &[RefName]) -> (r: Vec<Fragment>)
    ensures
        fragments_view(r@) == ref_names_fragments(names_view(names@)),
{
    let mut out: Vec<Fragment> = Vec::new();
    let ghost all = names_view(names@);
    let mut i: usize = 0;
    assert(fragments_view(out@) =~= ref_names_fragments(all.take(0)));
    while i < names.len()
        invariant
            i <= names.len(),
            all == names_view(names@),
            fragments_view(out@) == ref_names_fragments(all.take(i as int)),
        decreases names.len() - i,
    {
        let ghost before = fragments_view(out@);
        assert(all.take(i + 1).drop_last() =~= all.take(i as int));
        assert(all.take(i + 1).last() == names@[i as int]@);
        if i > 0 {
            out.push(Fragment::plain(" "));
        }
        let ghost mid = fragments_view(out@);
        assert(mid =~= if i > 0 {
            before + seq![plain(" "@)]
        } else {
            before
        });
        let mut one = names[i].format();
        let ghost added = fragments_view(one@);
        out.append(&mut one);
        assert(fragments_view(out@) =~= mid + added);
        assert(fragments_view(out@) =~= ref_names_fragments(all.take(i + 1)));
        i += 1;
    }
    assert(all.take(names.len() as int) =~= all);
    out
}

impl CommitOrChangeId {
    pub fn format(&self) -> (r: Vec<Fragment>)
        ensures
            fragments_view(r@) == seq![plain(self.hex_spec())],
    {
        let mut out: Vec<Fragment> = Vec::new();
        out.push(Fragment { label: None, text: self.hex() });
        assert(fragments_view(out@) =~= seq![plain(self.hex_spec())]);
        out
    }
}

impl ShortestIdPrefix {
    pub fn format(&self) -> (r: Vec<Fragment>)
        ensures
            fragments_view(r@) == shortest_fragments(self.prefix@, self.rest@),
    {
        let mut out: Vec<Fragment> = Vec::new();
        out.push(Fragment::labeled("prefix", self.prefix.as_str()));
        out.push(Fragment::labeled("rest", self.rest.as_str()));
        assert(fragments_view(out@) =~= shortest_fragments(self.prefix@, self.rest@));
        out
    }
}

/// Puts the texts of the fragments together and drops the labels.
pub fn plain_text(fragments: &Vec<Fragment>) -> (r: String)
    ensures
        r@ == plain_text_of(fragments_view(fragments@)),
{
    let mut out = String::new();
    let ghost all = fragments_view(fragments@);
    let mut i: usize = 0;
    assert(all.take(0) =~= Seq::<FragmentView>::empty());
    while i < fragments.len()
        invariant
            i <= fragments.len(),
            all == fragments_view(fragments@),
            out@ == plain_text_of(all.take(i as int)),
        decreases fragments.len() - i,
    {
        assert(all.take(i + 1).drop_last() =~= all.take(i as int));
        assert(all.take(i + 1).last() == fragments@[i as int]@);
        out.append(fragments[i].text.as_str());
        i += 1;
    }
    assert(all.take(fragments.len() as int) =~= all);
    out
}

} // verus!
