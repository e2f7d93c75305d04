//! What a host can add to the language: keywords and functions on a commit.

use vstd::prelude::*;
use std::marker::PhantomData;
use crate::property::{CommitProperty, CommitTemplatePropertyKind};
use crate::syntax::{no_such_method_view, ErrorView, FunctionCallNode, TemplateParseError};

verus! {

/// Whether what a function returned is what was to be returned: the same value,
/// or an error that holds the same.
pub open spec fn agrees<T>(r: Result<T, TemplateParseError>, expected: Result<T, ErrorView>) -> bool {
    match expected {
        Ok(value) => r == Ok::<T, TemplateParseError>(value),
        Err(error) => r matches Err(e) && e@ == error,
    }
}

/// What a host adds to the language: keywords and functions on a commit that
/// the language itself does not know. Both are asked only for names that the
/// language does not know.
pub trait CommitTemplateLanguageExtension {
    /// How the host names what it owns.
    type Host;

    /// The value of the keyword `name` on a commit, if the extension knows it.
    spec fn commit_property(
        &self,
        property: CommitProperty<Self::Host>,
        name: Seq<char>,
    ) -> Option<CommitTemplatePropertyKind<Self::Host>>;

    /// The value of a call on a commit, or why there is none.
    spec fn commit_function(
        &self,
        property: CommitProperty<Self::Host>,
        function: FunctionCallNode,
    ) -> Result<CommitTemplatePropertyKind<Self::Host>, ErrorView>;

    /// Resolves a keyword on a commit. For a name that it does not know, it hands
    /// the commit back as it got it.
    fn build_commit_property_opt(&self, property: CommitProperty<Self::Host>, name: &str) -> (r:
        Result<CommitTemplatePropertyKind<Self::Host>, CommitProperty<Self::Host>>)
        ensures
            match self.commit_property(property, name@) {
                Some(kind) => r == Ok::<
                    CommitTemplatePropertyKind<Self::Host>,
                    CommitProperty<Self::Host>,
                >(kind),
                None => r == Err::<CommitTemplatePropertyKind<Self::Host>, CommitProperty<Self::Host>>(
                    property,
                ),
            },
    ;

    /// Resolves a call on a commit, checking the arguments itself.
    fn build_commit_function(
        &self,
        self_property: CommitProperty<Self::Host>,
        function: &FunctionCallNode,
    ) -> (r: Result<CommitTemplatePropertyKind<Self::Host>, TemplateParseError>)
        ensures
            agrees(r, self.commit_function(self_property, *function)),
    ;
}

/// The extension that adds nothing.
pub struct NoExtension<H> {
    host: PhantomData<H>,
}

impl<H> NoExtension<H> {
    pub fn new() -> (r: NoExtension<H>) {
        NoExtension { host: PhantomData }
    }
}

impl<H> CommitTemplateLanguageExtension for NoExtension<H> {
    type Host = H;

    open spec fn commit_property(&self, property: CommitProperty<H>, name: Seq<char>) -> Option<
        CommitTemplatePropertyKind<H>,
    > {
        None
    }

    open spec fn commit_function(
        &self,
        property: CommitProperty<H>,
        function: FunctionCallNode,
    ) -> Result<CommitTemplatePropertyKind<H>, ErrorView> {
        Err(no_such_method_view("Commit"@, function))
    }

    fn build_commit_property_opt(&self, property: CommitProperty<H>, name: &str) -> (r: Result<
        CommitTemplatePropertyKind<H>,
        CommitProperty<H>,
    >) {
        Err(property)
    }

    fn build_commit_function(
        &self,
        self_property: CommitProperty<H>,
        function: &FunctionCallNode,
    ) -> (r: Result<CommitTemplatePropertyKind<H>, TemplateParseError>) {
        Err(TemplateParseError::no_such_method("Commit", function))
    }
}

} // verus!
