//! What a value comes to once the commit that it is about is at hand.
//!
//! Every value that this library builds is about one commit, its subject: the
//! commit being rendered, or one that the host supplies. The host finds the
//! subject and asks here for the value. Where the value reads something that
//! only the repository can tell, the answer names the fact that is missing;
//! the host gets it and asks again. Nothing is read of the repository before a
//! value needs it.

use vstd::prelude::*;
use crate::extension::CommitTemplateLanguageExtension;
use crate::ids::{min_len, CommitOrChangeId, IdView, ShortestIdPrefix};
use crate::keywords::{
    empty_spec, extract_working_copies, is_current_working_copy, is_divergent, is_empty,
    is_hidden, is_root, remote_or_empty, short_len, short_len_spec, shortest_len,
    shortest_len_spec,
    wc_commit_id_of, working_copies_text,
};
use crate::language::{ref_name_list_spec, CommitTemplateLanguage};
use crate::property::{
    BooleanProperty, CommitListProperty, CommitProperty, CommitTemplate, IdProperty,
    IntegerProperty, PlainTextFormattedProperty, RefNameListProperty, ShortestIdPrefixProperty,
    SignatureProperty, StringProperty,
};
use crate::ref_names::{RefName, RefNameView};
use crate::repo::{ids_view, Commit, CommitFacts, Fact, Signature};
use crate::template::{
    format_ref_names, fragments_view, plain, plain_text, plain_text_of, ref_names_fragments,
    shortest_fragments, Fragment, FragmentView,
};
use crate::text::{complete_newline, completed, lower_of, upper_of};

verus! {

/// What asking for the value of a property gives.
#[derive(Debug, PartialEq, Eq)]
pub enum Evaluated<T> {
    /// The value.
    Value(T),
    /// The value reads a fact that has not been told yet.
    Missing(Fact),
    /// The value is the host's own, or depends on one: the host evaluates it.
    Host,
}

/// Whether a text that was computed is the text that was to be computed.
pub open spec fn text_agrees(r: Evaluated<String>, expected: Evaluated<Seq<char>>) -> bool {
    match expected {
        Evaluated::Value(text) => r matches Evaluated::Value(s) && s@ == text,
        Evaluated::Missing(fact) => r == Evaluated::<String>::Missing(fact),
        Evaluated::Host => r == Evaluated::<String>::Host,
    }
}

/// Whether a split id that was computed is the one that was to be computed.
pub open spec fn split_agrees(
    r: Evaluated<ShortestIdPrefix>,
    expected: Evaluated<(Seq<char>, Seq<char>)>,
) -> bool {
    match expected {
        Evaluated::Value((prefix, rest)) => r matches Evaluated::Value(s) && s.prefix@ == prefix
            && s.rest@ == rest,
        Evaluated::Missing(fact) => r == Evaluated::<ShortestIdPrefix>::Missing(fact),
        Evaluated::Host => r == Evaluated::<ShortestIdPrefix>::Host,
    }
}

/// Whether the pieces that were written are those that were to be written.
pub open spec fn fragments_agree(
    r: Evaluated<Vec<Fragment>>,
    expected: Evaluated<Seq<FragmentView>>,
) -> bool {
    match expected {
        Evaluated::Value(fragments) => r matches Evaluated::Value(out) && fragments_view(out@)
            == fragments,
        Evaluated::Missing(fact) => r == Evaluated::<Vec<Fragment>>::Missing(fact),
        Evaluated::Host => r == Evaluated::<Vec<Fragment>>::Host,
    }
}

/// The id that an id value comes to for its subject.
pub open spec fn id_value<H>(property: IdProperty<H>, subject: Commit) -> IdView {
    match property {
        IdProperty::ChangeId(_) => IdView::Change(subject.change_id@),
        IdProperty::CommitId(_) => IdView::Commit(subject.id@),
    }
}

/// The fact that says how long the shortest unique prefix of an id is.
pub open spec fn unique_len_fact<H>(property: IdProperty<H>) -> Fact {
    match property {
        IdProperty::ChangeId(_) => Fact::ChangeIdUniqueLen,
        IdProperty::CommitId(_) => Fact::CommitIdUniqueLen,
    }
}

/// The length of the shortest unique prefix of an id, if it has been told.
pub open spec fn unique_len<H>(property: IdProperty<H>, facts: CommitFacts) -> Option<usize> {
    match property {
        IdProperty::ChangeId(_) => facts.change_id_unique_len,
        IdProperty::CommitId(_) => facts.commit_id_unique_len,
    }
}

/// The number that an optional argument comes to, if the argument is absent or
/// written out; nothing for one that the host owns.
pub open spec fn given_len<H>(len: Option<IntegerProperty<H>>) -> Option<Option<i64>> {
    match len {
        None => Some(None),
        Some(IntegerProperty::Literal(l)) => Some(Some(l)),
        Some(_) => None,
    }
}

/// The prefix and the rest that a split id comes to.
pub open spec fn shortest_value<H>(
    property: ShortestIdPrefixProperty<H>,
    subject: Commit,
    facts: CommitFacts,
) -> Evaluated<(Seq<char>, Seq<char>)>
    decreases property,
{
    match property {
        ShortestIdPrefixProperty::Shortest(id, len) => match given_len(len) {
            Some(l) => match unique_len(id, facts) {
                Some(unique) => {
                    let value = id_value(id, subject);
                    let at = value.split_point(unique, shortest_len_spec(l));
                    Evaluated::Value((value.hex().take(at), value.hex().skip(at)))
                },
                None => Evaluated::Missing(unique_len_fact(id)),
            },
            None => Evaluated::Host,
        },
        ShortestIdPrefixProperty::Upper(inner) => match shortest_value(*inner, subject, facts) {
            Evaluated::Value((prefix, rest)) => Evaluated::Value(
                (upper_of(prefix), upper_of(rest)),
            ),
            Evaluated::Missing(fact) => Evaluated::Missing(fact),
            Evaluated::Host => Evaluated::Host,
        },
        ShortestIdPrefixProperty::Lower(inner) => match shortest_value(*inner, subject, facts) {
            Evaluated::Value((prefix, rest)) => Evaluated::Value(
                (lower_of(prefix), lower_of(rest)),
            ),
            Evaluated::Missing(fact) => Evaluated::Missing(fact),
            Evaluated::Host => Evaluated::Host,
        },
    }
}

/// Whether a commit changes nothing against its parents, as far as the facts
/// told so far say.
pub open spec fn empty_value(subject: Commit, facts: CommitFacts) -> Evaluated<bool> {
    match facts.parents {
        None => Evaluated::Missing(Fact::Parents),
        Some(parents) => match empty_spec(subject, parents@, facts.merged_parent_tree) {
            Some(empty) => Evaluated::Value(empty),
            None => Evaluated::Missing(Fact::MergedParentTree),
        },
    }
}

impl<H> RefNameListProperty<H> {
    /// The commit that the list is about.
    pub open spec fn subject_spec(self) -> CommitProperty<H> {
        match self {
            RefNameListProperty::Branches(commit) => commit,
            RefNameListProperty::LocalBranches(commit) => commit,
            RefNameListProperty::RemoteBranches(commit) => commit,
            RefNameListProperty::Tags(commit) => commit,
            RefNameListProperty::GitRefs(commit) => commit,
            RefNameListProperty::GitHead(commit) => commit,
        }
    }

    pub fn subject(&self) -> (r: &CommitProperty<H>)
        ensures
            *r == self.subject_spec(),
    {
        match self {
            RefNameListProperty::Branches(commit) => commit,
            RefNameListProperty::LocalBranches(commit) => commit,
            RefNameListProperty::RemoteBranches(commit) => commit,
            RefNameListProperty::Tags(commit) => commit,
            RefNameListProperty::GitRefs(commit) => commit,
            RefNameListProperty::GitHead(commit) => commit,
        }
    }
}

impl<H> CommitListProperty<H> {
    /// The commit that the list is about.
    pub open spec fn subject_spec(self) -> CommitProperty<H> {
        match self {
            CommitListProperty::Parents(commit) => commit,
        }
    }

    pub fn subject(&self) -> (r: &CommitProperty<H>)
        ensures
            *r == self.subject_spec(),
    {
        match self {
            CommitListProperty::Parents(commit) => commit,
        }
    }
}

impl<H> ShortestIdPrefixProperty<H> {
    /// The commit that the split id is about.
    pub open spec fn subject_spec(self) -> CommitProperty<H>
        decreases self,
    {
        match self {
            ShortestIdPrefixProperty::Shortest(id, _) => id.subject_spec(),
            ShortestIdPrefixProperty::Upper(inner) => inner.subject_spec(),
            ShortestIdPrefixProperty::Lower(inner) => inner.subject_spec(),
        }
    }

    pub fn subject(&self) -> (r: &CommitProperty<H>)
        ensures
            *r == self.subject_spec(),
        decreases self,
    {
        match self {
            ShortestIdPrefixProperty::Shortest(id, _) => id.subject(),
            ShortestIdPrefixProperty::Upper(inner) => inner.subject(),
            ShortestIdPrefixProperty::Lower(inner) => inner.subject(),
        }
    }
}

impl<H> StringProperty<H> {
    /// The commit that the text is about, if it is about one.
    pub open spec fn subject_spec(self) -> Option<CommitProperty<H>> {
        match self {
            StringProperty::Description(commit) => Some(commit),
            StringProperty::WorkingCopies(commit) => Some(commit),
            StringProperty::Short(id, _) => Some(id.subject_spec()),
            StringProperty::Prefix(split) => Some(split.subject_spec()),
            StringProperty::Rest(split) => Some(split.subject_spec()),
            StringProperty::OfCommit(commit, _) => Some(commit),
            StringProperty::Literal(_) => None,
            StringProperty::RefNameName(_) => None,
            StringProperty::RefNameRemote(_) => None,
            StringProperty::Host(_) => None,
        }
    }

    pub fn subject(&self) -> (r: Option<&CommitProperty<H>>)
        ensures
            r == match self.subject_spec() {
                Some(commit) => Some(&commit),
                None => None,
            },
    {
        match self {
            StringProperty::Description(commit) => Some(commit),
            StringProperty::WorkingCopies(commit) => Some(commit),
            StringProperty::Short(id, _) => Some(id.subject()),
            StringProperty::Prefix(split) => Some(split.subject()),
            StringProperty::Rest(split) => Some(split.subject()),
            StringProperty::OfCommit(commit, _) => Some(commit),
            StringProperty::Literal(_) => None,
            StringProperty::RefNameName(_) => None,
            StringProperty::RefNameRemote(_) => None,
            StringProperty::Host(_) => None,
        }
    }
}

impl<H> BooleanProperty<H> {
    /// The commit that the truth value is about, if it is about one.
    pub open spec fn subject_spec(self) -> Option<CommitProperty<H>> {
        match self {
            BooleanProperty::CurrentWorkingCopy(commit) => Some(commit),
            BooleanProperty::Divergent(commit) => Some(commit),
            BooleanProperty::Hidden(commit) => Some(commit),
            BooleanProperty::Conflict(commit) => Some(commit),
            BooleanProperty::Empty(commit) => Some(commit),
            BooleanProperty::Root(commit) => Some(commit),
            BooleanProperty::NonEmptyCommitList(list) => Some(list.subject_spec()),
            BooleanProperty::NonEmptyRefNameList(list) => Some(list.subject_spec()),
            BooleanProperty::OfCommit(commit, _) => Some(commit),
            BooleanProperty::Host(_) => None,
        }
    }

    pub fn subject(&self) -> (r: Option<&CommitProperty<H>>)
        ensures
            r == match self.subject_spec() {
                Some(commit) => Some(&commit),
                None => None,
            },
    {
        match self {
            BooleanProperty::CurrentWorkingCopy(commit) => Some(commit),
            BooleanProperty::Divergent(commit) => Some(commit),
            BooleanProperty::Hidden(commit) => Some(commit),
            BooleanProperty::Conflict(commit) => Some(commit),
            BooleanProperty::Empty(commit) => Some(commit),
            BooleanProperty::Root(commit) => Some(commit),
            BooleanProperty::NonEmptyCommitList(list) => Some(list.subject()),
            BooleanProperty::NonEmptyRefNameList(list) => Some(list.subject()),
            BooleanProperty::OfCommit(commit, _) => Some(commit),
            BooleanProperty::Host(_) => None,
        }
    }
}

impl<H> CommitTemplate<H> {
    /// The commit that the value to write out is about, if it is about one.
    pub open spec fn subject_spec(self) -> Option<CommitProperty<H>> {
        match self {
            CommitTemplate::RefName(_) => None,
            CommitTemplate::RefNameList(list) => Some(list.subject_spec()),
            CommitTemplate::CommitOrChangeId(id) => Some(id.subject_spec()),
            CommitTemplate::ShortestIdPrefix(split) => Some(split.subject_spec()),
        }
    }

    pub fn subject(&self) -> (r: Option<&CommitProperty<H>>)
        ensures
            r == match self.subject_spec() {
                Some(commit) => Some(&commit),
                None => None,
            },
    {
        match self {
            CommitTemplate::RefName(_) => None,
            CommitTemplate::RefNameList(list) => Some(list.subject()),
            CommitTemplate::CommitOrChangeId(id) => Some(id.subject()),
            CommitTemplate::ShortestIdPrefix(split) => Some(split.subject()),
        }
    }
}

impl<H> IdProperty<H> {
    /// The commit that the id is of.
    pub open spec fn subject_spec(self) -> CommitProperty<H> {
        match self {
            IdProperty::ChangeId(commit) => commit,
            IdProperty::CommitId(commit) => commit,
        }
    }

    pub fn subject(&self) -> (r: &CommitProperty<H>)
        ensures
            *r == self.subject_spec(),
    {
        match self {
            IdProperty::ChangeId(commit) => commit,
            IdProperty::CommitId(commit) => commit,
        }
    }

    /// The id of the subject that the value stands for.
    pub fn eval(&self, subject: &Commit) -> (r: CommitOrChangeId)
        ensures
            r@ == id_value(*self, *subject),
    {
        match self {
            IdProperty::ChangeId(_) => CommitOrChangeId::Change(subject.change_id.duplicate()),
            IdProperty::CommitId(_) => CommitOrChangeId::Commit(subject.id.duplicate()),
        }
    }
}

/// Reads an optional argument that is absent or written out.
pub fn literal_len<H>(len: &Option<IntegerProperty<H>>) -> (r: Option<Option<i64>>)
    ensures
        r == given_len(*len),
{
    match len {
        None => Some(None),
        Some(IntegerProperty::Literal(l)) => Some(Some(*l)),
        Some(_) => None,
    }
}

impl<H> ShortestIdPrefixProperty<H> {
    /// The split id of the subject that the value stands for.
    pub fn eval(&self, subject: &Commit, facts: &CommitFacts) -> (r: Evaluated<ShortestIdPrefix>)
        ensures
            split_agrees(r, shortest_value(*self, *subject, *facts)),
            r matches Evaluated::Missing(fact) ==> !facts.has_spec(fact),
        decreases self,
    {
        match self {
            ShortestIdPrefixProperty::Shortest(id, len) => match literal_len(len) {
                Some(l) => {
                    let (unique, fact) = match id {
                        IdProperty::ChangeId(_) => (
                            facts.change_id_unique_len,
                            Fact::ChangeIdUniqueLen,
                        ),
                        IdProperty::CommitId(_) => (
                            facts.commit_id_unique_len,
                            Fact::CommitIdUniqueLen,
                        ),
                    };
                    match unique {
                        Some(unique) => Evaluated::Value(
                            id.eval(subject).shortest(unique, shortest_len(l)),
                        ),
                        None => Evaluated::Missing(fact),
                    }
                },
                None => Evaluated::Host,
            },
            ShortestIdPrefixProperty::Upper(inner) => match inner.eval(subject, facts) {
                Evaluated::Value(split) => Evaluated::Value(split.to_upper()),
                Evaluated::Missing(fact) => Evaluated::Missing(fact),
                Evaluated::Host => Evaluated::Host,
            },
            ShortestIdPrefixProperty::Lower(inner) => match inner.eval(subject, facts) {
                Evaluated::Value(split) => Evaluated::Value(split.to_lower()),
                Evaluated::Missing(fact) => Evaluated::Missing(fact),
                Evaluated::Host => Evaluated::Host,
            },
        }
    }
}

impl<H> SignatureProperty<H> {
    /// The signature of the subject that the value stands for.
    pub fn eval(&self, subject: &Commit) -> (r: Evaluated<Signature>)
        ensures
            r == match self {
                SignatureProperty::Author(_) => Evaluated::Value(subject.author),
                SignatureProperty::Committer(_) => Evaluated::Value(subject.committer),
                SignatureProperty::Host(_) => Evaluated::Host,
            },
    {
        match self {
            SignatureProperty::Author(_) => Evaluated::Value(subject.author.duplicate()),
            SignatureProperty::Committer(_) => Evaluated::Value(subject.committer.duplicate()),
            SignatureProperty::Host(_) => Evaluated::Host,
        }
    }
}

/// The text that a text about a ref name comes to, for the ref name that the
/// host has found: its name, or its remote, which is empty for a local ref.
pub open spec fn ref_name_text<H>(property: StringProperty<H>, ref_name: RefNameView) -> Evaluated<
    Seq<char>,
> {
    match property {
        StringProperty::RefNameName(_) => Evaluated::Value(ref_name.name),
        StringProperty::RefNameRemote(_) => Evaluated::Value(
            match ref_name.remote {
                Some(remote) => remote,
                None => Seq::empty(),
            },
        ),
        _ => Evaluated::Host,
    }
}

/// The text of a text about a ref name. A text about anything else is not
/// computed here.
pub fn eval_ref_name_string<H>(property: &StringProperty<H>, ref_name: &RefName) -> (r: Evaluated<
    String,
>)
    ensures
        text_agrees(r, ref_name_text(*property, ref_name@)),
{
    match property {
        StringProperty::RefNameName(_) => Evaluated::Value(ref_name.name.clone()),
        StringProperty::RefNameRemote(_) => Evaluated::Value(remote_or_empty(ref_name)),
        _ => Evaluated::Host,
    }
}

/// Whether a commit changes nothing against its parents, from the facts told
/// so far. The merge of the parents' trees is asked for only where the commit
/// has no parent or several.
pub fn eval_empty(subject: &Commit, facts: &CommitFacts) -> (r: Evaluated<bool>)
    ensures
        r == empty_value(*subject, *facts),
        r matches Evaluated::Missing(fact) ==> !facts.has_spec(fact),
{
    match &facts.parents {
        None => Evaluated::Missing(Fact::Parents),
        Some(parents) => match is_empty(subject, parents, facts.merged_parent_tree.as_ref()) {
            Some(empty) => Evaluated::Value(empty),
            None => Evaluated::Missing(Fact::MergedParentTree),
        },
    }
}

impl<E: CommitTemplateLanguageExtension> CommitTemplateLanguage<E> {
    /// The text that a text value comes to.
    pub open spec fn string_value(
        &self,
        property: StringProperty<E::Host>,
        subject: Commit,
        facts: CommitFacts,
    ) -> Evaluated<Seq<char>> {
        match property {
            StringProperty::Literal(text) => Evaluated::Value(text@),
            StringProperty::Description(_) => Evaluated::Value(completed(subject.description@)),
            StringProperty::WorkingCopies(_) => Evaluated::Value(
                working_copies_text(self.repo_spec().view, subject.id@),
            ),
            StringProperty::Short(id, len) => match given_len(len) {
                Some(l) => {
                    let hex = id_value(id, subject).hex();
                    Evaluated::Value(hex.take(min_len(short_len_spec(l) as int, hex.len() as int)))
                },
                None => Evaluated::Host,
            },
            StringProperty::Prefix(split) => match shortest_value(split, subject, facts) {
                Evaluated::Value((prefix, _)) => Evaluated::Value(prefix),
                Evaluated::Missing(fact) => Evaluated::Missing(fact),
                Evaluated::Host => Evaluated::Host,
            },
            StringProperty::Rest(split) => match shortest_value(split, subject, facts) {
                Evaluated::Value((_, rest)) => Evaluated::Value(rest),
                Evaluated::Missing(fact) => Evaluated::Missing(fact),
                Evaluated::Host => Evaluated::Host,
            },
            StringProperty::RefNameName(_) => Evaluated::Host,
            StringProperty::RefNameRemote(_) => Evaluated::Host,
            StringProperty::Host(_) => Evaluated::Host,
            StringProperty::OfCommit(_, _) => Evaluated::Host,
        }
    }

    /// The truth value that a truth value of the language comes to.
    pub open spec fn boolean_value(
        &self,
        property: BooleanProperty<E::Host>,
        subject: Commit,
        facts: CommitFacts,
    ) -> Evaluated<bool> {
        match property {
            BooleanProperty::CurrentWorkingCopy(_) => Evaluated::Value(
                wc_commit_id_of(self.repo_spec().view.wc_commit_ids@, self.workspace_id_spec()@) == Some(
                    subject.id@,
                ),
            ),
            BooleanProperty::Divergent(_) => match facts.visible_commits {
                Some(visible) => Evaluated::Value(visible matches Some(ids) && ids@.len() > 1),
                None => Evaluated::Missing(Fact::VisibleCommits),
            },
            BooleanProperty::Hidden(_) => match facts.visible_commits {
                Some(visible) => Evaluated::Value(
                    !(visible matches Some(ids) && ids_view(ids@).contains(subject.id@)),
                ),
                None => Evaluated::Missing(Fact::VisibleCommits),
            },
            BooleanProperty::Conflict(_) => match facts.has_conflict {
                Some(conflict) => Evaluated::Value(conflict),
                None => Evaluated::Missing(Fact::HasConflict),
            },
            BooleanProperty::Empty(_) => empty_value(subject, facts),
            BooleanProperty::Root(_) => Evaluated::Value(subject.id@ == self.repo_spec().root_commit_id@),
            BooleanProperty::NonEmptyCommitList(CommitListProperty::Parents(_)) => match facts.parents {
                Some(parents) => Evaluated::Value(parents@.len() > 0),
                None => Evaluated::Missing(Fact::Parents),
            },
            BooleanProperty::NonEmptyRefNameList(list) => Evaluated::Value(
                ref_name_list_spec(list, self.repo_spec().view, subject.id@).len() > 0,
            ),
            BooleanProperty::Host(_) => Evaluated::Host,
            BooleanProperty::OfCommit(_, _) => Evaluated::Host,
        }
    }

    /// The pieces that a value writes when it is written out.
    pub open spec fn template_value(
        &self,
        template: CommitTemplate<E::Host>,
        subject: Commit,
        facts: CommitFacts,
    ) -> Evaluated<Seq<FragmentView>> {
        match template {
            CommitTemplate::RefName(_) => Evaluated::Host,
            CommitTemplate::RefNameList(list) => Evaluated::Value(
                ref_names_fragments(ref_name_list_spec(list, self.repo_spec().view, subject.id@)),
            ),
            CommitTemplate::CommitOrChangeId(id) => Evaluated::Value(
                seq![plain(id_value(id, subject).hex())],
            ),
            CommitTemplate::ShortestIdPrefix(split) => match shortest_value(split, subject, facts) {
                Evaluated::Value((prefix, rest)) => Evaluated::Value(
                    shortest_fragments(prefix, rest),
                ),
                Evaluated::Missing(fact) => Evaluated::Missing(fact),
                Evaluated::Host => Evaluated::Host,
            },
        }
    }

    /// The text that a value writes when it is written out, without the labels.
    pub open spec fn plain_text_value(
        &self,
        property: PlainTextFormattedProperty<E::Host>,
        subject: Commit,
        facts: CommitFacts,
    ) -> Evaluated<Seq<char>> {
        match self.template_value(property.template, subject, facts) {
            Evaluated::Value(fragments) => Evaluated::Value(plain_text_of(fragments)),
            Evaluated::Missing(fact) => Evaluated::Missing(fact),
            Evaluated::Host => Evaluated::Host,
        }
    }

    /// The text of a text value for its subject.
    pub fn eval_string(
        &self,
        property: &StringProperty<E::Host>,
        subject: &Commit,
        facts: &CommitFacts,
    ) -> (r: Evaluated<String>)
        ensures
            text_agrees(r, self.string_value(*property, *subject, *facts)),
            r matches Evaluated::Missing(fact) ==> !facts.has_spec(fact),
    {
        match property {
            StringProperty::Literal(text) => Evaluated::Value(text.clone()),
            StringProperty::Description(_) => Evaluated::Value(
                complete_newline(subject.description.as_str()),
            ),
            StringProperty::WorkingCopies(_) => Evaluated::Value(
                extract_working_copies(&self.repo().view, subject),
            ),
            StringProperty::Short(id, len) => match literal_len(len) {
                Some(l) => Evaluated::Value(id.eval(subject).short(short_len(l))),
                None => Evaluated::Host,
            },
            StringProperty::Prefix(split) => match split.eval(subject, facts) {
                Evaluated::Value(s) => Evaluated::Value(s.prefix),
                Evaluated::Missing(fact) => Evaluated::Missing(fact),
                Evaluated::Host => Evaluated::Host,
            },
            StringProperty::Rest(split) => match split.eval(subject, facts) {
                Evaluated::Value(s) => Evaluated::Value(s.rest),
                Evaluated::Missing(fact) => Evaluated::Missing(fact),
                Evaluated::Host => Evaluated::Host,
            },
            StringProperty::RefNameName(_) => Evaluated::Host,
            StringProperty::RefNameRemote(_) => Evaluated::Host,
            StringProperty::Host(_) => Evaluated::Host,
            StringProperty::OfCommit(_, _) => Evaluated::Host,
        }
    }

    /// The truth value of a truth value for its subject. Asking whether a list
    /// of ref names has an element builds the index that the list reads, if this
    /// is its first use.
    pub fn eval_boolean(
        &mut self,
        property: &BooleanProperty<E::Host>,
        subject: &Commit,
        facts: &CommitFacts,
    ) -> (r: Evaluated<bool>)
        ensures
            final(self).same_session(*old(self)),
            r == old(self).boolean_value(*property, *subject, *facts),
            r matches Evaluated::Missing(fact) ==> !facts.has_spec(fact),
    {
        match property {
            BooleanProperty::CurrentWorkingCopy(_) => Evaluated::Value(
                is_current_working_copy(&self.repo().view, self.workspace_id().as_str(), subject),
            ),
            BooleanProperty::Divergent(_) => match &facts.visible_commits {
                Some(visible) => Evaluated::Value(is_divergent(visible)),
                None => Evaluated::Missing(Fact::VisibleCommits),
            },
            BooleanProperty::Hidden(_) => match &facts.visible_commits {
                Some(visible) => Evaluated::Value(is_hidden(visible, subject)),
                None => Evaluated::Missing(Fact::VisibleCommits),
            },
            BooleanProperty::Conflict(_) => match facts.has_conflict {
                Some(conflict) => Evaluated::Value(conflict),
                None => Evaluated::Missing(Fact::HasConflict),
            },
            BooleanProperty::Empty(_) => eval_empty(subject, facts),
            BooleanProperty::Root(_) => Evaluated::Value(
                is_root(subject, &self.repo().root_commit_id),
            ),
            BooleanProperty::NonEmptyCommitList(CommitListProperty::Parents(_)) => match &facts.parents {
                Some(parents) => Evaluated::Value(parents.len() > 0),
                None => Evaluated::Missing(Fact::Parents),
            },
            BooleanProperty::NonEmptyRefNameList(list) => {
                let names = self.eval_ref_name_list(list, subject);
                Evaluated::Value(names.len() > 0)
            },
            BooleanProperty::Host(_) => Evaluated::Host,
            BooleanProperty::OfCommit(_, _) => Evaluated::Host,
        }
    }

    /// The pieces that a value writes for its subject.
    pub fn eval_template(
        &mut self,
        template: &CommitTemplate<E::Host>,
        subject: &Commit,
        facts: &CommitFacts,
    ) -> (r: Evaluated<Vec<Fragment>>)
        ensures
            final(self).same_session(*old(self)),
            fragments_agree(r, old(self).template_value(*template, *subject, *facts)),
            r matches Evaluated::Missing(fact) ==> !facts.has_spec(fact),
    {
        match template {
            CommitTemplate::RefName(_) => Evaluated::Host,
            CommitTemplate::RefNameList(list) => {
                let names = self.eval_ref_name_list(list, subject);
                Evaluated::Value(format_ref_names(names.as_slice()))
            },
            CommitTemplate::CommitOrChangeId(id) => Evaluated::Value(id.eval(subject).format()),
            CommitTemplate::ShortestIdPrefix(split) => match split.eval(subject, facts) {
                Evaluated::Value(s) => Evaluated::Value(s.format()),
                Evaluated::Missing(fact) => Evaluated::Missing(fact),
                Evaluated::Host => Evaluated::Host,
            },
        }
    }

    /// The text that a value writes for its subject, without the labels.
    pub fn eval_plain_text(
        &mut self,
        property: &PlainTextFormattedProperty<E::Host>,
        subject: &Commit,
        facts: &CommitFacts,
    ) -> (r: Evaluated<String>)
        ensures
            final(self).same_session(*old(self)),
            text_agrees(r, old(self).plain_text_value(*property, *subject, *facts)),
            r matches Evaluated::Missing(fact) ==> !facts.has_spec(fact),
    {
        match self.eval_template(&property.template, subject, facts) {
            Evaluated::Value(fragments) => Evaluated::Value(plain_text(&fragments)),
            Evaluated::Missing(fact) => Evaluated::Missing(fact),
            Evaluated::Host => Evaluated::Host,
        }
    }
}

/// A commit with exactly one parent is `empty` exactly when it has the tree of
/// that parent, whatever else has been told of it.
pub proof fn lemma_empty_with_one_parent<E: CommitTemplateLanguageExtension>(
    language: CommitTemplateLanguage<E>,
    property: CommitProperty<E::Host>,
    subject: Commit,
    facts: CommitFacts,
)
    requires
        facts.parents matches Some(parents) && parents@.len() == 1,
    ensures
        language.boolean_value(BooleanProperty::Empty(property), subject, facts)
            == Evaluated::Value(facts.parents->0@[0].tree_id@ == subject.tree_id@),
{
}

/// The root commit is `root`. Having no parent, it is `empty` exactly when its
/// tree is the one that merging no trees gives.
pub proof fn lemma_root_commit<E: CommitTemplateLanguageExtension>(
    language: CommitTemplateLanguage<E>,
    property: CommitProperty<E::Host>,
    subject: Commit,
    facts: CommitFacts,
)
    requires
        subject.id@ == language.repo_spec().root_commit_id@,
        facts.parents matches Some(parents) && parents@.len() == 0,
        facts.merged_parent_tree is Some,
    ensures
        language.boolean_value(BooleanProperty::Root(property), subject, facts)
            == Evaluated::Value(true),
        language.boolean_value(BooleanProperty::Empty(property), subject, facts)
            == Evaluated::Value(subject.tree_id@ == facts.merged_parent_tree->0@),
{
}

} // verus!
