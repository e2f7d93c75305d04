//! The values a template can hold while it is built. Each is a description of
//! how to get a value from the commit being rendered: nothing is computed until
//! the template is rendered.
//!
//! `H` is how the host names what it owns. The host is the generic template
//! engine together with any extension; this library carries such a name along
//! and never looks inside.

use vstd::prelude::*;

verus! {

/// A commit.
#[derive(Debug, PartialEq, Eq)]
pub enum CommitProperty<H> {
    /// The commit being rendered.
    Context,
    /// A commit that the host supplies, such as the element of a list that it walks.
    Host(H),
}

/// A list of commits.
#[derive(Debug, PartialEq, Eq)]
pub enum CommitListProperty<H> {
    /// The parents of a commit.
    Parents(CommitProperty<H>),
}

/// A ref name. Only the host supplies one: the element of a list that it walks.
#[derive(Debug, PartialEq, Eq)]
pub enum RefNameProperty<H> {
    Host(H),
}

/// A list of ref names, each variant for the commit it is the list of.
#[derive(Debug, PartialEq, Eq)]
pub enum RefNameListProperty<H> {
    /// The local branches, and the remote branches that are not in step with them.
    Branches(CommitProperty<H>),
    LocalBranches(CommitProperty<H>),
    RemoteBranches(CommitProperty<H>),
    Tags(CommitProperty<H>),
    GitRefs(CommitProperty<H>),
    /// The Git HEAD, if it points to the commit.
    GitHead(CommitProperty<H>),
}

/// A commit id or a change id.
#[derive(Debug, PartialEq, Eq)]
pub enum IdProperty<H> {
    ChangeId(CommitProperty<H>),
    CommitId(CommitProperty<H>),
}

/// A whole number.
#[derive(Debug, PartialEq, Eq)]
pub enum IntegerProperty<H> {
    Literal(i64),
    /// A number that the host supplies.
    Host(H),
    /// A function of a commit that the host supplies.
    OfCommit(CommitProperty<H>, H),
}

/// An id split into the prefix that tells it apart and the rest.
#[derive(Debug, PartialEq, Eq)]
pub enum ShortestIdPrefixProperty<H> {
    /// The split of an id, with the least length of the prefix if one is given.
    Shortest(IdProperty<H>, Option<IntegerProperty<H>>),
    Upper(Box<ShortestIdPrefixProperty<H>>),
    Lower(Box<ShortestIdPrefixProperty<H>>),
}

/// A text.
#[derive(Debug, PartialEq, Eq)]
pub enum StringProperty<H> {
    Literal(String),
    /// The description of a commit, ended with a line feed unless it is empty.
    Description(CommitProperty<H>),
    /// The workspaces that have a commit checked out.
    WorkingCopies(CommitProperty<H>),
    /// The local name of a ref.
    RefNameName(RefNameProperty<H>),
    /// The remote of a ref; empty for a local ref.
    RefNameRemote(RefNameProperty<H>),
    /// The first characters of an id, as many as the number says or 12.
    Short(IdProperty<H>, Option<IntegerProperty<H>>),
    Prefix(ShortestIdPrefixProperty<H>),
    Rest(ShortestIdPrefixProperty<H>),
    /// A text that the host supplies.
    Host(H),
    /// A function of a commit that the host supplies.
    OfCommit(CommitProperty<H>, H),
}

/// A truth value.
#[derive(Debug, PartialEq, Eq)]
pub enum BooleanProperty<H> {
    /// Whether the workspace of the session has the commit checked out.
    CurrentWorkingCopy(CommitProperty<H>),
    /// Whether the change of the commit has more than one visible commit.
    Divergent(CommitProperty<H>),
    /// Whether the commit is not among the visible commits of its change.
    Hidden(CommitProperty<H>),
    /// Whether the tree of the commit holds a conflict.
    Conflict(CommitProperty<H>),
    /// Whether the commit changes nothing against its parents.
    Empty(CommitProperty<H>),
    /// Whether the commit is the root of the repository.
    Root(CommitProperty<H>),
    /// Whether a list of commits has an element.
    NonEmptyCommitList(CommitListProperty<H>),
    /// Whether a list of ref names has an element.
    NonEmptyRefNameList(RefNameListProperty<H>),
    /// A truth value that the host supplies.
    Host(H),
    /// A function of a commit that the host supplies.
    OfCommit(CommitProperty<H>, H),
}

/// An author or a committer.
#[derive(Debug, PartialEq, Eq)]
pub enum SignatureProperty<H> {
    Author(CommitProperty<H>),
    Committer(CommitProperty<H>),
    /// A signature that the host supplies.
    Host(H),
}

/// A value of the generic type system, which has its own methods and its own
/// rules of conversion.
#[derive(Debug, PartialEq, Eq)]
pub enum CoreTemplatePropertyKind<H> {
    String(StringProperty<H>),
    Boolean(BooleanProperty<H>),
    Integer(IntegerProperty<H>),
    Signature(SignatureProperty<H>),
    /// A value of a type that only the host produces, such as a timestamp.
    Other(H),
}

/// Any value that a template expression can have.
#[derive(Debug, PartialEq, Eq)]
pub enum CommitTemplatePropertyKind<H> {
    Core(CoreTemplatePropertyKind<H>),
    Commit(CommitProperty<H>),
    CommitList(CommitListProperty<H>),
    RefName(RefNameProperty<H>),
    RefNameList(RefNameListProperty<H>),
    CommitOrChangeId(IdProperty<H>),
    ShortestIdPrefix(ShortestIdPrefixProperty<H>),
}

/// A value that can be written out.
#[derive(Debug, PartialEq, Eq)]
pub enum CommitTemplate<H> {
    /// The name, `@` and the remote if there is one, then `??` for a conflict or
    /// `*` for a local ref that is out of step.
    RefName(RefNameProperty<H>),
    /// The names, with one space between neighbours.
    RefNameList(RefNameListProperty<H>),
    /// The rendering of the id.
    CommitOrChangeId(IdProperty<H>),
    /// The prefix and the rest, each under its own label.
    ShortestIdPrefix(ShortestIdPrefixProperty<H>),
}

/// The text that a template writes, without its labels.
#[derive(Debug, PartialEq, Eq)]
pub struct PlainTextFormattedProperty<H> {
    pub template: CommitTemplate<H>,
}

/// What asking a value for another shape gives.
#[derive(Debug, PartialEq, Eq)]
pub enum Conversion<H, T> {
    /// The value in the shape asked for.
    Converted(T),
    /// The value belongs to the generic type system, whose own rule decides.
    Core(CoreTemplatePropertyKind<H>),
    /// Values of this kind do not have that shape.
    Unsupported,
}

impl<H> CommitTemplatePropertyKind<H> {
    /// What `try_into_boolean` gives: a list is true when it has an element,
    /// and a single commit, ref name or id is no truth value.
    pub open spec fn boolean_spec(self) -> Conversion<H, BooleanProperty<H>> {
        match self {
            CommitTemplatePropertyKind::Core(core) => Conversion::Core(core),
            CommitTemplatePropertyKind::CommitList(list) => Conversion::Converted(
                BooleanProperty::NonEmptyCommitList(list),
            ),
            CommitTemplatePropertyKind::RefNameList(list) => Conversion::Converted(
                BooleanProperty::NonEmptyRefNameList(list),
            ),
            _ => Conversion::Unsupported,
        }
    }

    /// What `try_into_integer` gives: only a number of the generic type system
    /// is a number.
    pub open spec fn integer_spec(self) -> Option<IntegerProperty<H>> {
        match self {
            CommitTemplatePropertyKind::Core(CoreTemplatePropertyKind::Integer(n)) => Some(n),
            _ => None,
        }
    }

    /// What `try_into_template` gives: all but a commit and a list of commits
    /// can be written out.
    pub open spec fn template_spec(self) -> Conversion<H, CommitTemplate<H>> {
        match self {
            CommitTemplatePropertyKind::Core(core) => Conversion::Core(core),
            CommitTemplatePropertyKind::Commit(_) => Conversion::Unsupported,
            CommitTemplatePropertyKind::CommitList(_) => Conversion::Unsupported,
            CommitTemplatePropertyKind::RefName(p) => Conversion::Converted(
                CommitTemplate::RefName(p),
            ),
            CommitTemplatePropertyKind::RefNameList(p) => Conversion::Converted(
                CommitTemplate::RefNameList(p),
            ),
            CommitTemplatePropertyKind::CommitOrChangeId(p) => Conversion::Converted(
                CommitTemplate::CommitOrChangeId(p),
            ),
            CommitTemplatePropertyKind::ShortestIdPrefix(p) => Conversion::Converted(
                CommitTemplate::ShortestIdPrefix(p),
            ),
        }
    }

    /// What `try_into_plain_text` gives: the text of whatever can be written out.
    pub open spec fn plain_text_spec(self) -> Conversion<H, PlainTextFormattedProperty<H>> {
        match self.template_spec() {
            Conversion::Converted(template) => Conversion::Converted(
                PlainTextFormattedProperty { template },
            ),
            Conversion::Core(core) => Conversion::Core(core),
            Conversion::Unsupported => Conversion::Unsupported,
        }
    }

    /// The value as a truth value.
    pub fn try_into_boolean(self) -> (r: Conversion<H, BooleanProperty<H>>)
        ensures
            r == self.boolean_spec(),
    {
        match self {
            CommitTemplatePropertyKind::Core(core) => Conversion::Core(core),
            CommitTemplatePropertyKind::Commit(_) => Conversion::Unsupported,
            CommitTemplatePropertyKind::CommitList(list) => Conversion::Converted(
                BooleanProperty::NonEmptyCommitList(list),
            ),
            CommitTemplatePropertyKind::RefName(_) => Conversion::Unsupported,
            CommitTemplatePropertyKind::RefNameList(list) => Conversion::Converted(
                BooleanProperty::NonEmptyRefNameList(list),
            ),
            CommitTemplatePropertyKind::CommitOrChangeId(_) => Conversion::Unsupported,
            CommitTemplatePropertyKind::ShortestIdPrefix(_) => Conversion::Unsupported,
        }
    }

    /// The value as a number.
    pub fn try_into_integer(self) -> (r: Option<IntegerProperty<H>>)
        ensures
            r == self.integer_spec(),
    {
        match self {
            CommitTemplatePropertyKind::Core(CoreTemplatePropertyKind::Integer(n)) => Some(n),
            _ => None,
        }
    }

    /// The value as a text without labels.
    pub fn try_into_plain_text(self) -> (r: Conversion<H, PlainTextFormattedProperty<H>>)
        ensures
            r == self.plain_text_spec(),
    {
        match self {
            CommitTemplatePropertyKind::Core(core) => Conversion::Core(core),
            other => match other.try_into_template() {
                Conversion::Converted(template) => Conversion::Converted(
                    PlainTextFormattedProperty { template },
                ),
                Conversion::Core(core) => Conversion::Core(core),
                Conversion::Unsupported => Conversion::Unsupported,
            },
        }
    }

    /// The value as something that can be written out.
    pub fn try_into_template(self) -> (r: Conversion<H, CommitTemplate<H>>)
        ensures
            r == self.template_spec(),
    {
        match self {
            CommitTemplatePropertyKind::Core(core) => Conversion::Core(core),
            CommitTemplatePropertyKind::Commit(_) => Conversion::Unsupported,
            CommitTemplatePropertyKind::CommitList(_) => Conversion::Unsupported,
            CommitTemplatePropertyKind::RefName(p) => Conversion::Converted(
                CommitTemplate::RefName(p),
            ),
            CommitTemplatePropertyKind::RefNameList(p) => Conversion::Converted(
                CommitTemplate::RefNameList(p),
            ),
            CommitTemplatePropertyKind::CommitOrChangeId(p) => Conversion::Converted(
                CommitTemplate::CommitOrChangeId(p),
            ),
            CommitTemplatePropertyKind::ShortestIdPrefix(p) => Conversion::Converted(
                CommitTemplate::ShortestIdPrefix(p),
            ),
        }
    }
}

} // verus!
