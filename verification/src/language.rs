//! How names resolve: a keyword on the commit being rendered, and a method
//! call on a value of any kind.

use vstd::prelude::*;
use std::rc::Rc;
use crate::property::{
    BooleanProperty, CommitListProperty, CommitProperty, CommitTemplatePropertyKind,
    CoreTemplatePropertyKind, IdProperty, IntegerProperty, RefNameListProperty, RefNameProperty,
    ShortestIdPrefixProperty, SignatureProperty, StringProperty,
};
use crate::cache::{indexes_branches, indexes_refs, CommitKeywordCache};
use crate::extension::{agrees, CommitTemplateLanguageExtension, NoExtension};
use crate::keywords::{
    extract_git_head, git_head_names, lemma_all_kept, lemma_kept_contains, lemma_kept_passes,
    RefNameFilter,
};
use crate::ref_names::{
    branches_names, lemma_branch_names_listed, lemma_local_only_branch, local_ref_name, names_view,
    plain_names, RefName, RefNameView, RefNamesIndex,
};
use crate::repo::{Commit, Repo, RepoView};
use crate::syntax::{
    expect_no_arguments, expect_optional_argument, invalid_arguments_view, no_such_keyword_view,
    no_such_method_view, type_mismatch_view, ErrorView, ExpressionKind, ExpressionNode,
    FunctionCallNode, Span, TemplateParseError,
};
use crate::text::str_eq;

verus! {

/// What can be asked of a commit by name.
#[derive(Clone, Copy, Debug, PartialEq, Eq)]
pub enum CommitKeyword {
    Description,
    ChangeId,
    CommitId,
    Parents,
    Author,
    Committer,
    WorkingCopies,
    CurrentWorkingCopy,
    Branches,
    LocalBranches,
    RemoteBranches,
    Tags,
    GitRefs,
    GitHead,
    Divergent,
    Hidden,
    Conflict,
    Empty,
    Root,
}

/// The keyword that a name stands for, if it is one.
pub open spec fn commit_keyword_of(name: Seq<char>) -> Option<CommitKeyword> {
    if name == "description"@ {
        Some(CommitKeyword::Description)
    } else if name == "change_id"@ {
        Some(CommitKeyword::ChangeId)
    } else if name == "commit_id"@ {
        Some(CommitKeyword::CommitId)
    } else if name == "parents"@ {
        Some(CommitKeyword::Parents)
    } else if name == "author"@ {
        Some(CommitKeyword::Author)
    } else if name == "committer"@ {
        Some(CommitKeyword::Committer)
    } else if name == "working_copies"@ {
        Some(CommitKeyword::WorkingCopies)
    } else if name == "current_working_copy"@ {
        Some(CommitKeyword::CurrentWorkingCopy)
    } else if name == "branches"@ {
        Some(CommitKeyword::Branches)
    } else if name == "local_branches"@ {
        Some(CommitKeyword::LocalBranches)
    } else if name == "remote_branches"@ {
        Some(CommitKeyword::RemoteBranches)
    } else if name == "tags"@ {
        Some(CommitKeyword::Tags)
    } else if name == "git_refs"@ {
        Some(CommitKeyword::GitRefs)
    } else if name == "git_head"@ {
        Some(CommitKeyword::GitHead)
    } else if name == "divergent"@ {
        Some(CommitKeyword::Divergent)
    } else if name == "hidden"@ {
        Some(CommitKeyword::Hidden)
    } else if name == "conflict"@ {
        Some(CommitKeyword::Conflict)
    } else if name == "empty"@ {
        Some(CommitKeyword::Empty)
    } else if name == "root"@ {
        Some(CommitKeyword::Root)
    } else {
        None
    }
}

/// The value that a keyword gives when asked of the commit `property`.
pub open spec fn keyword_property<H>(
    keyword: CommitKeyword,
    property: CommitProperty<H>,
) -> CommitTemplatePropertyKind<H> {
    match keyword {
        CommitKeyword::Description => CommitTemplatePropertyKind::Core(
            CoreTemplatePropertyKind::String(StringProperty::Description(property)),
        ),
        CommitKeyword::ChangeId => CommitTemplatePropertyKind::CommitOrChangeId(
            IdProperty::ChangeId(property),
        ),
        CommitKeyword::CommitId => CommitTemplatePropertyKind::CommitOrChangeId(
            IdProperty::CommitId(property),
        ),
        CommitKeyword::Parents => CommitTemplatePropertyKind::CommitList(
            CommitListProperty::Parents(property),
        ),
        CommitKeyword::Author => CommitTemplatePropertyKind::Core(
            CoreTemplatePropertyKind::Signature(SignatureProperty::Author(property)),
        ),
        CommitKeyword::Committer => CommitTemplatePropertyKind::Core(
            CoreTemplatePropertyKind::Signature(SignatureProperty::Committer(property)),
        ),
        CommitKeyword::WorkingCopies => CommitTemplatePropertyKind::Core(
            CoreTemplatePropertyKind::String(StringProperty::WorkingCopies(property)),
        ),
        CommitKeyword::CurrentWorkingCopy => CommitTemplatePropertyKind::Core(
            CoreTemplatePropertyKind::Boolean(BooleanProperty::CurrentWorkingCopy(property)),
        ),
        CommitKeyword::Branches => CommitTemplatePropertyKind::RefNameList(
            RefNameListProperty::Branches(property),
        ),
        CommitKeyword::LocalBranches => CommitTemplatePropertyKind::RefNameList(
            RefNameListProperty::LocalBranches(property),
        ),
        CommitKeyword::RemoteBranches => CommitTemplatePropertyKind::RefNameList(
            RefNameListProperty::RemoteBranches(property),
        ),
        CommitKeyword::Tags => CommitTemplatePropertyKind::RefNameList(
            RefNameListProperty::Tags(property),
        ),
        CommitKeyword::GitRefs => CommitTemplatePropertyKind::RefNameList(
            RefNameListProperty::GitRefs(property),
        ),
        CommitKeyword::GitHead => CommitTemplatePropertyKind::RefNameList(
            RefNameListProperty::GitHead(property),
        ),
        CommitKeyword::Divergent => CommitTemplatePropertyKind::Core(
            CoreTemplatePropertyKind::Boolean(BooleanProperty::Divergent(property)),
        ),
        CommitKeyword::Hidden => CommitTemplatePropertyKind::Core(
            CoreTemplatePropertyKind::Boolean(BooleanProperty::Hidden(property)),
        ),
        CommitKeyword::Conflict => CommitTemplatePropertyKind::Core(
            CoreTemplatePropertyKind::Boolean(BooleanProperty::Conflict(property)),
        ),
        CommitKeyword::Empty => CommitTemplatePropertyKind::Core(
            CoreTemplatePropertyKind::Boolean(BooleanProperty::Empty(property)),
        ),
        CommitKeyword::Root => CommitTemplatePropertyKind::Core(
            CoreTemplatePropertyKind::Boolean(BooleanProperty::Root(property)),
        ),
    }
}

/// What resolving a method call comes to.
#[derive(Debug, PartialEq, Eq)]
pub enum MethodResolution<H> {
    /// The value of the call.
    Built(CommitTemplatePropertyKind<H>),
    /// The receiver belongs to the generic type system, which resolves the call.
    Core(CoreTemplatePropertyKind<H>),
    /// The receiver is a list of commits: the generic list operations apply,
    /// without those that write an element out.
    CommitListMethod(CommitListProperty<H>),
    /// The receiver is a list of ref names: the generic list operations apply.
    RefNameListMethod(RefNameListProperty<H>),
}

/// The commit side of the template language for one session: the repository
/// as it is, the workspace that the session is for, the indexes built so far,
/// and what the host adds to the language.
pub struct CommitTemplateLanguage<E> {
    repo: Repo,
    workspace_id: String,
    keyword_cache: CommitKeywordCache,
    extension: E,
}

/// The names that a list of ref names comes to for the commit `id`.
pub open spec fn ref_name_list_spec<H>(
    property: RefNameListProperty<H>,
    view: RepoView,
    id: Seq<u8>,
) -> Seq<RefNameView> {
    let branches = branches_names(view.branches@, view.branches@.len() as int, id);
    match property {
        RefNameListProperty::Branches(_) => RefNameFilter::LocalOrUnsynced.kept(branches),
        RefNameListProperty::LocalBranches(_) => RefNameFilter::Local.kept(branches),
        RefNameListProperty::RemoteBranches(_) => RefNameFilter::Remote.kept(branches),
        RefNameListProperty::Tags(_) => plain_names(view.tags@, view.tags@.len() as int, id),
        RefNameListProperty::GitRefs(_) => plain_names(
            view.git_refs@,
            view.git_refs@.len() as int,
            id,
        ),
        RefNameListProperty::GitHead(_) => git_head_names(view, id),
    }
}

/// Finds the keyword that a name stands for.
pub fn parse_commit_keyword(name: &str) -> (r: Option<CommitKeyword>)
    ensures
        r == commit_keyword_of(name@),
{
    if str_eq(name, "description") {
        Some(CommitKeyword::Description)
    } else if str_eq(name, "change_id") {
        Some(CommitKeyword::ChangeId)
    } else if str_eq(name, "commit_id") {
        Some(CommitKeyword::CommitId)
    } else if str_eq(name, "parents") {
        Some(CommitKeyword::Parents)
    } else if str_eq(name, "author") {
        Some(CommitKeyword::Author)
    } else if str_eq(name, "committer") {
        Some(CommitKeyword::Committer)
    } else if str_eq(name, "working_copies") {
        Some(CommitKeyword::WorkingCopies)
    } else if str_eq(name, "current_working_copy") {
        Some(CommitKeyword::CurrentWorkingCopy)
    } else if str_eq(name, "branches") {
        Some(CommitKeyword::Branches)
    } else if str_eq(name, "local_branches") {
        Some(CommitKeyword::LocalBranches)
    } else if str_eq(name, "remote_branches") {
        Some(CommitKeyword::RemoteBranches)
    } else if str_eq(name, "tags") {
        Some(CommitKeyword::Tags)
    } else if str_eq(name, "git_refs") {
        Some(CommitKeyword::GitRefs)
    } else if str_eq(name, "git_head") {
        Some(CommitKeyword::GitHead)
    } else if str_eq(name, "divergent") {
        Some(CommitKeyword::Divergent)
    } else if str_eq(name, "hidden") {
        Some(CommitKeyword::Hidden)
    } else if str_eq(name, "conflict") {
        Some(CommitKeyword::Conflict)
    } else if str_eq(name, "empty") {
        Some(CommitKeyword::Empty)
    } else if str_eq(name, "root") {
        Some(CommitKeyword::Root)
    } else {
        None
    }
}

/// What a keyword that the language does not know comes to, given what the
/// extension made of it: the extension's value, or the error for an unknown
/// keyword.
pub fn extension_keyword<H>(
    built: Result<CommitTemplatePropertyKind<H>, CommitProperty<H>>,
    name: &str,
    span: Span,
) -> (r: Result<CommitTemplatePropertyKind<H>, TemplateParseError>)
    ensures
        match built {
            Ok(kind) => r == Ok::<CommitTemplatePropertyKind<H>, TemplateParseError>(kind),
            Err(_) => r matches Err(e) && e@ == no_such_keyword_view(name@, span),
        },
{
    match built {
        Ok(kind) => Ok(kind),
        Err(_) => Err(TemplateParseError::no_such_keyword(name, span)),
    }
}

/// A keyword used as a method takes no arguments: the value if the call has
/// none, else the error for unfit arguments.
pub open spec fn without_arguments<H>(
    kind: CommitTemplatePropertyKind<H>,
    function: FunctionCallNode,
) -> Result<CommitTemplatePropertyKind<H>, ErrorView> {
    if function.args@.len() == 0 {
        Ok(kind)
    } else {
        Err(invalid_arguments_view(function, "Expected 0 arguments"@))
    }
}

/// Gives `kind` for a call without arguments, and rejects a call with any.
pub fn reject_arguments<H>(kind: CommitTemplatePropertyKind<H>, function: &FunctionCallNode) -> (r:
    Result<CommitTemplatePropertyKind<H>, TemplateParseError>)
    ensures
        agrees(r, without_arguments(kind, *function)),
{
    match expect_no_arguments(function) {
        Ok(_) => Ok(kind),
        Err(e) => Err(e),
    }
}

impl<E> CommitTemplateLanguage<E> {
    /// The indexes built so far are those of the repository.
    #[verifier::type_invariant]
    closed spec fn wf(&self) -> bool {
        self.keyword_cache.wf(self.repo.view)
    }

    /// The repository of the session.
    pub closed spec fn repo_spec(&self) -> Repo {
        self.repo
    }

    /// The workspace that the session is for.
    pub closed spec fn workspace_id_spec(&self) -> String {
        self.workspace_id
    }

    /// What the host adds to the language.
    pub closed spec fn extension_spec(&self) -> E {
        self.extension
    }

    /// Whether this is the session `other`, apart from the indexes built.
    pub open spec fn same_session(&self, other: CommitTemplateLanguage<E>) -> bool {
        &&& self.repo_spec() == other.repo_spec()
        &&& self.workspace_id_spec() == other.workspace_id_spec()
        &&& self.extension_spec() == other.extension_spec()
    }

    /// Starts a session, with no index built.
    pub fn new(repo: Repo, workspace_id: String, extension: E) -> (r: CommitTemplateLanguage<E>)
        ensures
            r.repo_spec() == repo,
            r.workspace_id_spec() == workspace_id,
            r.extension_spec() == extension,
    {
        CommitTemplateLanguage {
            repo,
            workspace_id,
            keyword_cache: CommitKeywordCache::new(),
            extension,
        }
    }

    pub fn repo(&self) -> (r: &Repo)
        ensures
            *r == self.repo_spec(),
    {
        &self.repo
    }

    pub fn workspace_id(&self) -> (r: &String)
        ensures
            *r == self.workspace_id_spec(),
    {
        &self.workspace_id
    }

    pub fn extension(&self) -> (r: &E)
        ensures
            *r == self.extension_spec(),
    {
        &self.extension
    }

    /// The index of the branches of the repository, built if this is its first
    /// use. The cache is taken out of the session while it works, so that the
    /// session is whole whenever it is looked at.
    fn branches_index(&mut self) -> (r: Rc<RefNamesIndex>)
        ensures
            final(self).same_session(*old(self)),
            indexes_branches(*r, old(self).repo_spec().view),
    {
        proof {
            use_type_invariant(&*self);
        }
        let mut cache = CommitKeywordCache::new();
        std::mem::swap(&mut self.keyword_cache, &mut cache);
        let index = cache.branches_index(&self.repo.view);
        std::mem::swap(&mut self.keyword_cache, &mut cache);
        index
    }

    /// The index of the tags of the repository, built if this is its first use.
    fn tags_index(&mut self) -> (r: Rc<RefNamesIndex>)
        ensures
            final(self).same_session(*old(self)),
            indexes_refs(*r, old(self).repo_spec().view.tags@),
    {
        proof {
            use_type_invariant(&*self);
        }
        let mut cache = CommitKeywordCache::new();
        std::mem::swap(&mut self.keyword_cache, &mut cache);
        let index = cache.tags_index(&self.repo.view);
        std::mem::swap(&mut self.keyword_cache, &mut cache);
        index
    }

    /// The index of the Git refs of the repository, built if this is its first
    /// use.
    fn git_refs_index(&mut self) -> (r: Rc<RefNamesIndex>)
        ensures
            final(self).same_session(*old(self)),
            indexes_refs(*r, old(self).repo_spec().view.git_refs@),
    {
        proof {
            use_type_invariant(&*self);
        }
        let mut cache = CommitKeywordCache::new();
        std::mem::swap(&mut self.keyword_cache, &mut cache);
        let index = cache.git_refs_index(&self.repo.view);
        std::mem::swap(&mut self.keyword_cache, &mut cache);
        index
    }
}

impl<E: CommitTemplateLanguageExtension> CommitTemplateLanguage<E> {
    /// The value of a list of ref names, given the commit that it is the list
    /// of. The index that the list reads is built if this is its first use.
    pub fn eval_ref_name_list(
        &mut self,
        property: &RefNameListProperty<E::Host>,
        commit: &Commit,
    ) -> (r: Vec<RefName>)
        ensures
            final(self).same_session(*old(self)),
            names_view(r@) == ref_name_list_spec(*property, old(self).repo_spec().view, commit.id@),
    {
        match property {
            RefNameListProperty::Branches(_) => {
                let index = self.branches_index();
                RefNameFilter::LocalOrUnsynced.apply(index.get(&commit.id))
            },
            RefNameListProperty::LocalBranches(_) => {
                let index = self.branches_index();
                RefNameFilter::Local.apply(index.get(&commit.id))
            },
            RefNameListProperty::RemoteBranches(_) => {
                let index = self.branches_index();
                RefNameFilter::Remote.apply(index.get(&commit.id))
            },
            RefNameListProperty::Tags(_) => {
                let index = self.tags_index();
                let names = index.get(&commit.id);
                proof {
                    lemma_all_kept(names_view(names@));
                }
                RefNameFilter::All.apply(names)
            },
            RefNameListProperty::GitRefs(_) => {
                let index = self.git_refs_index();
                let names = index.get(&commit.id);
                proof {
                    lemma_all_kept(names_view(names@));
                }
                RefNameFilter::All.apply(names)
            },
            RefNameListProperty::GitHead(_) => extract_git_head(&self.repo.view, commit),
        }
    }

    /// What a bare name resolves to: a keyword of the language on the commit
    /// being rendered, else a keyword of the extension, else an error.
    pub open spec fn keyword_spec(&self, name: Seq<char>, span: Span) -> Result<
        CommitTemplatePropertyKind<E::Host>,
        ErrorView,
    > {
        match commit_keyword_of(name) {
            Some(keyword) => Ok(keyword_property(keyword, CommitProperty::Context)),
            None => match self.extension_spec().commit_property(CommitProperty::Context, name) {
                Some(kind) => Ok(kind),
                None => Err(no_such_keyword_view(name, span)),
            },
        }
    }

    /// What a call on a commit resolves to: a keyword of the language or of the
    /// extension, which takes no arguments, else a function of the extension.
    pub open spec fn commit_method_spec(
        &self,
        property: CommitProperty<E::Host>,
        function: FunctionCallNode,
    ) -> Result<CommitTemplatePropertyKind<E::Host>, ErrorView> {
        match commit_keyword_of(function.name@) {
            Some(keyword) => without_arguments(keyword_property(keyword, property), function),
            None => match self.extension_spec().commit_property(property, function.name@) {
                Some(kind) => without_arguments(kind, function),
                None => self.extension_spec().commit_function(property, function),
            },
        }
    }

    /// The value of an argument: a name is a keyword, a number and a text are
    /// themselves.
    pub open spec fn expression_spec(&self, node: ExpressionNode) -> Result<
        CommitTemplatePropertyKind<E::Host>,
        ErrorView,
    > {
        match node.kind {
            ExpressionKind::Identifier(name) => self.keyword_spec(name@, node.span),
            ExpressionKind::Integer(value) => Ok(
                CommitTemplatePropertyKind::Core(
                    CoreTemplatePropertyKind::Integer(IntegerProperty::Literal(value)),
                ),
            ),
            ExpressionKind::String(text) => Ok(
                CommitTemplatePropertyKind::Core(
                    CoreTemplatePropertyKind::String(StringProperty::Literal(text)),
                ),
            ),
        }
    }

    /// The value of an argument that has to be a number.
    pub open spec fn integer_expression_spec(&self, node: ExpressionNode) -> Result<
        IntegerProperty<E::Host>,
        ErrorView,
    > {
        match self.expression_spec(node) {
            Ok(kind) => match kind.integer_spec() {
                Some(n) => Ok(n),
                None => Err(type_mismatch_view("Integer"@, node.span)),
            },
            Err(e) => Err(e),
        }
    }

    /// The argument of a call that takes at most one, which has to be a number.
    pub open spec fn optional_integer_spec(&self, function: FunctionCallNode) -> Result<
        Option<IntegerProperty<E::Host>>,
        ErrorView,
    > {
        if function.args@.len() == 0 {
            Ok(None)
        } else if function.args@.len() == 1 {
            match self.integer_expression_spec(function.args@[0]) {
                Ok(n) => Ok(Some(n)),
                Err(e) => Err(e),
            }
        } else {
            Err(invalid_arguments_view(function, "Expected 0 to 1 arguments"@))
        }
    }

    /// What a call on an id resolves to.
    pub open spec fn id_method_spec(
        &self,
        property: IdProperty<E::Host>,
        function: FunctionCallNode,
    ) -> Result<CommitTemplatePropertyKind<E::Host>, ErrorView> {
        if function.name@ == "short"@ {
            match self.optional_integer_spec(function) {
                Ok(len) => Ok(
                    CommitTemplatePropertyKind::Core(
                        CoreTemplatePropertyKind::String(StringProperty::Short(property, len)),
                    ),
                ),
                Err(e) => Err(e),
            }
        } else if function.name@ == "shortest"@ {
            match self.optional_integer_spec(function) {
                Ok(len) => Ok(
                    CommitTemplatePropertyKind::ShortestIdPrefix(
                        ShortestIdPrefixProperty::Shortest(property, len),
                    ),
                ),
                Err(e) => Err(e),
            }
        } else {
            Err(no_such_method_view("CommitOrChangeId"@, function))
        }
    }

    /// What a call on a value of any kind resolves to.
    pub open spec fn method_spec(
        &self,
        property: CommitTemplatePropertyKind<E::Host>,
        function: FunctionCallNode,
    ) -> Result<MethodResolution<E::Host>, ErrorView> {
        match property {
            CommitTemplatePropertyKind::Core(core) => Ok(MethodResolution::Core(core)),
            CommitTemplatePropertyKind::Commit(p) => built(self.commit_method_spec(p, function)),
            CommitTemplatePropertyKind::CommitList(list) => Ok(
                MethodResolution::CommitListMethod(list),
            ),
            CommitTemplatePropertyKind::RefName(p) => built(ref_name_method_spec(p, function)),
            CommitTemplatePropertyKind::RefNameList(list) => Ok(
                MethodResolution::RefNameListMethod(list),
            ),
            CommitTemplatePropertyKind::CommitOrChangeId(p) => built(
                self.id_method_spec(p, function),
            ),
            CommitTemplatePropertyKind::ShortestIdPrefix(p) => built(
                shortest_id_prefix_method_spec(p, function),
            ),
        }
    }

    /// Resolves a bare name against the commit being rendered.
    pub fn build_keyword(&self, name: &str, span: Span) -> (r: Result<
        CommitTemplatePropertyKind<E::Host>,
        TemplateParseError,
    >)
        ensures
            agrees(r, self.keyword_spec(name@, span)),
    {
        self.build_commit_keyword(name, span)
    }

    /// Resolves a call `name(args)` on a value. A call on a value of the generic
    /// type system or on a list is handed on to the generic engine.
    pub fn build_method(
        &self,
        property: CommitTemplatePropertyKind<E::Host>,
        function: &FunctionCallNode,
    ) -> (r: Result<MethodResolution<E::Host>, TemplateParseError>)
        ensures
            agrees(r, self.method_spec(property, *function)),
    {
        match property {
            CommitTemplatePropertyKind::Core(core) => Ok(MethodResolution::Core(core)),
            CommitTemplatePropertyKind::Commit(p) => {
                match self.build_commit_method(p, function) {
                    Ok(kind) => Ok(MethodResolution::Built(kind)),
                    Err(e) => Err(e),
                }
            },
            CommitTemplatePropertyKind::CommitList(list) => Ok(
                MethodResolution::CommitListMethod(list),
            ),
            CommitTemplatePropertyKind::RefName(p) => {
                match build_ref_name_method(p, function) {
                    Ok(kind) => Ok(MethodResolution::Built(kind)),
                    Err(e) => Err(e),
                }
            },
            CommitTemplatePropertyKind::RefNameList(list) => Ok(
                MethodResolution::RefNameListMethod(list),
            ),
            CommitTemplatePropertyKind::CommitOrChangeId(p) => {
                match build_commit_or_change_id_method(self, p, function) {
                    Ok(kind) => Ok(MethodResolution::Built(kind)),
                    Err(e) => Err(e),
                }
            },
            CommitTemplatePropertyKind::ShortestIdPrefix(p) => {
                match build_shortest_id_prefix_method(p, function) {
                    Ok(kind) => Ok(MethodResolution::Built(kind)),
                    Err(e) => Err(e),
                }
            },
        }
    }

    /// Resolves a keyword of the language on the commit `property`. Nothing is
    /// read of any commit here: the value says what to read when the template is
    /// rendered. For a name that is no keyword, the commit comes back as it was.
    pub fn build_commit_keyword_opt(&self, property: CommitProperty<E::Host>, name: &str) -> (r:
        Result<CommitTemplatePropertyKind<E::Host>, CommitProperty<E::Host>>)
        ensures
            match commit_keyword_of(name@) {
                Some(keyword) => r == Ok::<
                    CommitTemplatePropertyKind<E::Host>,
                    CommitProperty<E::Host>,
                >(keyword_property(keyword, property)),
                None => r == Err::<CommitTemplatePropertyKind<E::Host>, CommitProperty<E::Host>>(
                    property,
                ),
            },
    {
        let keyword = match parse_commit_keyword(name) {
            Some(keyword) => keyword,
            None => {
                return Err(property);
            },
        };
        let kind = match keyword {
            CommitKeyword::Description => self.wrap_string(StringProperty::Description(property)),
            CommitKeyword::ChangeId => self.wrap_commit_or_change_id(
                IdProperty::ChangeId(property),
            ),
            CommitKeyword::CommitId => self.wrap_commit_or_change_id(
                IdProperty::CommitId(property),
            ),
            CommitKeyword::Parents => self.wrap_commit_list(CommitListProperty::Parents(property)),
            CommitKeyword::Author => self.wrap_signature(SignatureProperty::Author(property)),
            CommitKeyword::Committer => self.wrap_signature(SignatureProperty::Committer(property)),
            CommitKeyword::WorkingCopies => self.wrap_string(
                StringProperty::WorkingCopies(property),
            ),
            CommitKeyword::CurrentWorkingCopy => self.wrap_boolean(
                BooleanProperty::CurrentWorkingCopy(property),
            ),
            CommitKeyword::Branches => self.wrap_ref_name_list(
                RefNameListProperty::Branches(property),
            ),
            CommitKeyword::LocalBranches => self.wrap_ref_name_list(
                RefNameListProperty::LocalBranches(property),
            ),
            CommitKeyword::RemoteBranches => self.wrap_ref_name_list(
                RefNameListProperty::RemoteBranches(property),
            ),
            CommitKeyword::Tags => self.wrap_ref_name_list(RefNameListProperty::Tags(property)),
            CommitKeyword::GitRefs => self.wrap_ref_name_list(
                RefNameListProperty::GitRefs(property),
            ),
            CommitKeyword::GitHead => self.wrap_ref_name_list(
                RefNameListProperty::GitHead(property),
            ),
            CommitKeyword::Divergent => self.wrap_boolean(BooleanProperty::Divergent(property)),
            CommitKeyword::Hidden => self.wrap_boolean(BooleanProperty::Hidden(property)),
            CommitKeyword::Conflict => self.wrap_boolean(BooleanProperty::Conflict(property)),
            CommitKeyword::Empty => self.wrap_boolean(BooleanProperty::Empty(property)),
            CommitKeyword::Root => self.wrap_boolean(BooleanProperty::Root(property)),
        };
        Ok(kind)
    }

    /// Resolves a bare name against the commit being rendered: a keyword of the
    /// language first, then one of the extension.
    pub fn build_commit_keyword(&self, name: &str, span: Span) -> (r: Result<
        CommitTemplatePropertyKind<E::Host>,
        TemplateParseError,
    >)
        ensures
            agrees(r, self.keyword_spec(name@, span)),
    {
        match self.build_commit_keyword_opt(CommitProperty::Context, name) {
            Ok(kind) => Ok(kind),
            Err(property) => {
                let built = self.extension.build_commit_property_opt(property, name);
                extension_keyword(built, name, span)
            },
        }
    }

    /// Resolves a call on a commit. The keywords are its methods, and take no
    /// arguments; any other name is for the extension.
    pub fn build_commit_method(
        &self,
        self_property: CommitProperty<E::Host>,
        function: &FunctionCallNode,
    ) -> (r: Result<CommitTemplatePropertyKind<E::Host>, TemplateParseError>)
        ensures
            agrees(r, self.commit_method_spec(self_property, *function)),
    {
        match self.build_commit_keyword_opt(self_property, function.name.as_str()) {
            Ok(kind) => reject_arguments(kind, function),
            Err(property) => {
                match self.extension.build_commit_property_opt(property, function.name.as_str()) {
                    Ok(kind) => reject_arguments(kind, function),
                    Err(property) => self.extension.build_commit_function(property, function),
                }
            },
        }
    }

    /// Builds the value of an argument.
    pub fn build_expression(&self, node: &ExpressionNode) -> (r: Result<
        CommitTemplatePropertyKind<E::Host>,
        TemplateParseError,
    >)
        ensures
            agrees(r, self.expression_spec(*node)),
    {
        match &node.kind {
            ExpressionKind::Identifier(name) => self.build_keyword(name.as_str(), node.span),
            ExpressionKind::Integer(value) => Ok(self.wrap_integer(IntegerProperty::Literal(*value))),
            ExpressionKind::String(text) => Ok(
                self.wrap_string(StringProperty::Literal(text.clone())),
            ),
        }
    }

    /// Builds the value of an argument that has to be a number.
    pub fn expect_integer_expression(&self, node: &ExpressionNode) -> (r: Result<
        IntegerProperty<E::Host>,
        TemplateParseError,
    >)
        ensures
            agrees(r, self.integer_expression_spec(*node)),
    {
        match self.build_expression(node) {
            Ok(kind) => match kind.try_into_integer() {
                Some(n) => Ok(n),
                None => Err(TemplateParseError::type_mismatch("Integer", node.span)),
            },
            Err(e) => Err(e),
        }
    }

    /// Builds the argument of a call that takes at most one, which has to be a
    /// number.
    pub fn parse_optional_integer(&self, function: &FunctionCallNode) -> (r: Result<
        Option<IntegerProperty<E::Host>>,
        TemplateParseError,
    >)
        ensures
            agrees(r, self.optional_integer_spec(*function)),
    {
        match expect_optional_argument(function) {
            Ok(Some(node)) => match self.expect_integer_expression(node) {
                Ok(n) => Ok(Some(n)),
                Err(e) => Err(e),
            },
            Ok(None) => Ok(None),
            Err(e) => Err(e),
        }
    }

    pub fn wrap_string(&self, property: StringProperty<E::Host>) -> (r: CommitTemplatePropertyKind<
        E::Host,
    >)
        ensures
            r == CommitTemplatePropertyKind::Core(CoreTemplatePropertyKind::String(property)),
    {
        CommitTemplatePropertyKind::Core(CoreTemplatePropertyKind::String(property))
    }

    pub fn wrap_boolean(&self, property: BooleanProperty<E::Host>) -> (r:
        CommitTemplatePropertyKind<E::Host>)
        ensures
            r == CommitTemplatePropertyKind::Core(CoreTemplatePropertyKind::Boolean(property)),
    {
        CommitTemplatePropertyKind::Core(CoreTemplatePropertyKind::Boolean(property))
    }

    pub fn wrap_integer(&self, property: IntegerProperty<E::Host>) -> (r:
        CommitTemplatePropertyKind<E::Host>)
        ensures
            r == CommitTemplatePropertyKind::Core(CoreTemplatePropertyKind::Integer(property)),
    {
        CommitTemplatePropertyKind::Core(CoreTemplatePropertyKind::Integer(property))
    }

    pub fn wrap_signature(&self, property: SignatureProperty<E::Host>) -> (r:
        CommitTemplatePropertyKind<E::Host>)
        ensures
            r == CommitTemplatePropertyKind::Core(CoreTemplatePropertyKind::Signature(property)),
    {
        CommitTemplatePropertyKind::Core(CoreTemplatePropertyKind::Signature(property))
    }

    pub fn wrap_commit(&self, property: CommitProperty<E::Host>) -> (r: CommitTemplatePropertyKind<
        E::Host,
    >)
        ensures
            r == CommitTemplatePropertyKind::Commit(property),
    {
        CommitTemplatePropertyKind::Commit(property)
    }

    pub fn wrap_commit_list(&self, property: CommitListProperty<E::Host>) -> (r:
        CommitTemplatePropertyKind<E::Host>)
        ensures
            r == CommitTemplatePropertyKind::CommitList(property),
    {
        CommitTemplatePropertyKind::CommitList(property)
    }

    pub fn wrap_ref_name(&self, property: RefNameProperty<E::Host>) -> (r:
        CommitTemplatePropertyKind<E::Host>)
        ensures
            r == CommitTemplatePropertyKind::RefName(property),
    {
        CommitTemplatePropertyKind::RefName(property)
    }

    pub fn wrap_ref_name_list(&self, property: RefNameListProperty<E::Host>) -> (r:
        CommitTemplatePropertyKind<E::Host>)
        ensures
            r == CommitTemplatePropertyKind::RefNameList(property),
    {
        CommitTemplatePropertyKind::RefNameList(property)
    }

    pub fn wrap_commit_or_change_id(&self, property: IdProperty<E::Host>) -> (r:
        CommitTemplatePropertyKind<E::Host>)
        ensures
            r == CommitTemplatePropertyKind::CommitOrChangeId(property),
    {
        CommitTemplatePropertyKind::CommitOrChangeId(property)
    }

    pub fn wrap_shortest_id_prefix(&self, property: ShortestIdPrefixProperty<E::Host>) -> (r:
        CommitTemplatePropertyKind<E::Host>)
        ensures
            r == CommitTemplatePropertyKind::ShortestIdPrefix(property),
    {
        CommitTemplatePropertyKind::ShortestIdPrefix(property)
    }
}

/// The value of a call as what resolving it comes to.
pub open spec fn built<H>(r: Result<CommitTemplatePropertyKind<H>, ErrorView>) -> Result<
    MethodResolution<H>,
    ErrorView,
> {
    match r {
        Ok(kind) => Ok(MethodResolution::Built(kind)),
        Err(e) => Err(e),
    }
}

/// What a call on a ref name resolves to.
pub open spec fn ref_name_method_spec<H>(
    property: RefNameProperty<H>,
    function: FunctionCallNode,
) -> Result<CommitTemplatePropertyKind<H>, ErrorView> {
    if function.name@ == "name"@ {
        without_arguments(
            CommitTemplatePropertyKind::Core(
                CoreTemplatePropertyKind::String(StringProperty::RefNameName(property)),
            ),
            function,
        )
    } else if function.name@ == "remote"@ {
        without_arguments(
            CommitTemplatePropertyKind::Core(
                CoreTemplatePropertyKind::String(StringProperty::RefNameRemote(property)),
            ),
            function,
        )
    } else {
        Err(no_such_method_view("RefName"@, function))
    }
}

/// What a call on a split id resolves to.
pub open spec fn shortest_id_prefix_method_spec<H>(
    property: ShortestIdPrefixProperty<H>,
    function: FunctionCallNode,
) -> Result<CommitTemplatePropertyKind<H>, ErrorView> {
    if function.name@ == "prefix"@ {
        without_arguments(
            CommitTemplatePropertyKind::Core(
                CoreTemplatePropertyKind::String(StringProperty::Prefix(property)),
            ),
            function,
        )
    } else if function.name@ == "rest"@ {
        without_arguments(
            CommitTemplatePropertyKind::Core(
                CoreTemplatePropertyKind::String(StringProperty::Rest(property)),
            ),
            function,
        )
    } else if function.name@ == "upper"@ {
        without_arguments(
            CommitTemplatePropertyKind::ShortestIdPrefix(
                ShortestIdPrefixProperty::Upper(Box::new(property)),
            ),
            function,
        )
    } else if function.name@ == "lower"@ {
        without_arguments(
            CommitTemplatePropertyKind::ShortestIdPrefix(
                ShortestIdPrefixProperty::Lower(Box::new(property)),
            ),
            function,
        )
    } else {
        Err(no_such_method_view("ShortestIdPrefix"@, function))
    }
}

/// Resolves a call on a ref name: `name()` and `remote()`.
pub fn build_ref_name_method<H>(self_property: RefNameProperty<H>, function: &FunctionCallNode) -> (r:
    Result<CommitTemplatePropertyKind<H>, TemplateParseError>)
    ensures
        agrees(r, ref_name_method_spec(self_property, *function)),
{
    let name = function.name.as_str();
    if str_eq(name, "name") {
        reject_arguments(
            CommitTemplatePropertyKind::Core(
                CoreTemplatePropertyKind::String(StringProperty::RefNameName(self_property)),
            ),
            function,
        )
    } else if str_eq(name, "remote") {
        reject_arguments(
            CommitTemplatePropertyKind::Core(
                CoreTemplatePropertyKind::String(StringProperty::RefNameRemote(self_property)),
            ),
            function,
        )
    } else {
        Err(TemplateParseError::no_such_method("RefName", function))
    }
}

/// Resolves a call on an id: `short(len?)` and `shortest(len?)`.
pub fn build_commit_or_change_id_method<E: CommitTemplateLanguageExtension>(
    language: &CommitTemplateLanguage<E>,
    self_property: IdProperty<E::Host>,
    function: &FunctionCallNode,
) -> (r: Result<CommitTemplatePropertyKind<E::Host>, TemplateParseError>)
    ensures
        agrees(r, language.id_method_spec(self_property, *function)),
{
    let name = function.name.as_str();
    if str_eq(name, "short") {
        match language.parse_optional_integer(function) {
            Ok(len_property) => Ok(
                language.wrap_string(StringProperty::Short(self_property, len_property)),
            ),
            Err(e) => Err(e),
        }
    } else if str_eq(name, "shortest") {
        match language.parse_optional_integer(function) {
            Ok(len_property) => Ok(
                language.wrap_shortest_id_prefix(
                    ShortestIdPrefixProperty::Shortest(self_property, len_property),
                ),
            ),
            Err(e) => Err(e),
        }
    } else {
        Err(TemplateParseError::no_such_method("CommitOrChangeId", function))
    }
}

/// Resolves a call on a split id: `prefix()`, `rest()`, `upper()` and `lower()`.
pub fn build_shortest_id_prefix_method<H>(
    self_property: ShortestIdPrefixProperty<H>,
    function: &FunctionCallNode,
) -> (r: Result<CommitTemplatePropertyKind<H>, TemplateParseError>)
    ensures
        agrees(r, shortest_id_prefix_method_spec(self_property, *function)),
{
    let name = function.name.as_str();
    if str_eq(name, "prefix") {
        reject_arguments(
            CommitTemplatePropertyKind::Core(
                CoreTemplatePropertyKind::String(StringProperty::Prefix(self_property)),
            ),
            function,
        )
    } else if str_eq(name, "rest") {
        reject_arguments(
            CommitTemplatePropertyKind::Core(
                CoreTemplatePropertyKind::String(StringProperty::Rest(self_property)),
            ),
            function,
        )
    } else if str_eq(name, "upper") {
        reject_arguments(
            CommitTemplatePropertyKind::ShortestIdPrefix(
                ShortestIdPrefixProperty::Upper(Box::new(self_property)),
            ),
            function,
        )
    } else if str_eq(name, "lower") {
        reject_arguments(
            CommitTemplatePropertyKind::ShortestIdPrefix(
                ShortestIdPrefixProperty::Lower(Box::new(self_property)),
            ),
            function,
        )
    } else {
        Err(TemplateParseError::no_such_method("ShortestIdPrefix", function))
    }
}

/// A branch that exists locally and on no remote is listed by `branches`, as in
/// step, for every commit that its target adds.
pub proof fn lemma_local_only_branch_is_listed_synced<H>(
    view: RepoView,
    commit: CommitProperty<H>,
    i: int,
    id: Seq<u8>,
)
    requires
        0 <= i < view.branches@.len(),
        view.branches@[i].local_target.is_present_spec(),
        view.branches@[i].remote_refs@.len() == 0,
        view.branches@[i].local_target.added_ids_spec().contains(id),
    ensures
        local_ref_name(view.branches@[i]).synced,
        ref_name_list_spec(RefNameListProperty::Branches(commit), view, id).contains(
            local_ref_name(view.branches@[i]),
        ),
{
    let branch = view.branches@[i];
    let name = local_ref_name(branch);
    lemma_local_only_branch(branch, id);
    lemma_branch_names_listed(view.branches@, view.branches@.len() as int, i, id, name);
    lemma_kept_contains(
        RefNameFilter::LocalOrUnsynced,
        branches_names(view.branches@, view.branches@.len() as int, id),
        name,
    );
}

/// `branches` lists no remote name that is in step with the local one: every
/// name that it lists is local or out of step, and is a name of the commit.
pub proof fn lemma_branches_lists_no_synced_remote<H>(
    view: RepoView,
    commit: CommitProperty<H>,
    id: Seq<u8>,
    i: int,
)
    requires
        0 <= i < ref_name_list_spec(RefNameListProperty::Branches(commit), view, id).len(),
    ensures
        ({
            let name = ref_name_list_spec(RefNameListProperty::Branches(commit), view, id)[i];
            &&& name.remote is None || !name.synced
            &&& branches_names(view.branches@, view.branches@.len() as int, id).contains(name)
        }),
{
    lemma_kept_passes(
        RefNameFilter::LocalOrUnsynced,
        branches_names(view.branches@, view.branches@.len() as int, id),
        i,
    );
}

/// Without an extension, a name that is no keyword of the language resolves to
/// the error for an unknown keyword, which holds the name and its place.
pub proof fn lemma_unknown_keyword_without_extension<H>(
    language: CommitTemplateLanguage<NoExtension<H>>,
    name: Seq<char>,
    span: Span,
)
    requires
        commit_keyword_of(name) is None,
    ensures
        language.keyword_spec(name, span) == Err::<CommitTemplatePropertyKind<H>, ErrorView>(
            no_such_keyword_view(name, span),
        ),
{
}

} // verus!
