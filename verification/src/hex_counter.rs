//! An extension that counts characters in the hexadecimal rendering of the
//! commit id: the keyword `num_digits_in_id` and the function
//! `num_char_in_id(c)`.

use vstd::prelude::*;
use crate::eval::Evaluated;
use crate::extension::CommitTemplateLanguageExtension;
use crate::ids::{hex_of, CommitOrChangeId};
use crate::property::{
    CommitProperty, CommitTemplatePropertyKind, CoreTemplatePropertyKind, IntegerProperty,
};
use crate::repo::Commit;
use crate::syntax::{
    invalid_arguments_view, no_such_function_view, ErrorView, ExpressionKind, FunctionCallNode,
    TemplateParseError,
};
use crate::text::str_eq;

verus! {

/// What the extension computes of a commit.
#[derive(Clone, Copy, Debug, PartialEq, Eq)]
pub enum HexCount {
    /// How many decimal digits the rendering of the commit id has.
    Digits,
    /// How often a character occurs in the rendering of the commit id.
    Char(char),
}

/// The extension itself.
pub struct HexCounter;

/// How many characters of a text are decimal digits.
pub open spec fn digits_in(s: Seq<char>) -> nat
    decreases s.len(),
{
    if s.len() == 0 {
        0
    } else {
        digits_in(s.drop_last()) + if '0' <= s.last() && s.last() <= '9' {
            1nat
        } else {
            0nat
        }
    }
}

/// How often a character occurs in a text.
pub open spec fn occurrences_of(s: Seq<char>, c: char) -> nat
    decreases s.len(),
{
    if s.len() == 0 {
        0
    } else {
        occurrences_of(s.drop_last(), c) + if s.last() == c {
            1nat
        } else {
            0nat
        }
    }
}

/// A count as a number of the template language, which has no number above
/// the largest `i64`.
pub open spec fn as_integer(count: nat) -> i64 {
    if count <= i64::MAX {
        count as i64
    } else {
        i64::MAX
    }
}

fn to_integer(count: usize) -> (r: i64)
    ensures
        r == as_integer(count as nat),
{
    if count as u64 > i64::MAX as u64 {
        i64::MAX
    } else {
        count as i64
    }
}

/// Counts the decimal digits in the rendering of the id of a commit.
pub fn num_digits_in_id(commit: &Commit) -> (r: i64)
    ensures
        r == as_integer(digits_in(hex_of(commit.id@))),
{
    let hex = CommitOrChangeId::Commit(commit.id.duplicate()).hex();
    let n = hex.as_str().unicode_len();
    let mut count: usize = 0;
    let mut i: usize = 0;
    assert(hex@.take(0) =~= Seq::<char>::empty());
    while i < n
        invariant
            i <= n,
            n == hex@.len(),
            count <= i,
            count == digits_in(hex@.take(i as int)),
        decreases n - i,
    {
        let ch = hex.as_str().get_char(i);
        assert(hex@.take(i + 1).drop_last() =~= hex@.take(i as int));
        if ch >= '0' && ch <= '9' {
            count += 1;
        }
        i += 1;
    }
    assert(hex@.take(n as int) =~= hex@);
    to_integer(count)
}

/// Counts how often a character occurs in the rendering of the id of a commit.
pub fn num_char_in_id(commit: &Commit, ch_match: char) -> (r: i64)
    ensures
        r == as_integer(occurrences_of(hex_of(commit.id@), ch_match)),
{
    let hex = CommitOrChangeId::Commit(commit.id.duplicate()).hex();
    let n = hex.as_str().unicode_len();
    let mut count: usize = 0;
    let mut i: usize = 0;
    assert(hex@.take(0) =~= Seq::<char>::empty());
    while i < n
        invariant
            i <= n,
            n == hex@.len(),
            count <= i,
            count == occurrences_of(hex@.take(i as int), ch_match),
        decreases n - i,
    {
        let ch = hex.as_str().get_char(i);
        assert(hex@.take(i + 1).drop_last() =~= hex@.take(i as int));
        if ch == ch_match {
            count += 1;
        }
        i += 1;
    }
    assert(hex@.take(n as int) =~= hex@);
    to_integer(count)
}

impl HexCount {
    /// The number that the function comes to for a commit.
    pub fn eval(self, commit: &Commit) -> (r: i64)
        ensures
            r == match self {
                HexCount::Digits => as_integer(digits_in(hex_of(commit.id@))),
                HexCount::Char(c) => as_integer(occurrences_of(hex_of(commit.id@), c)),
            },
    {
        match self {
            HexCount::Digits => num_digits_in_id(commit),
            HexCount::Char(c) => num_char_in_id(commit, c),
        }
    }
}

/// The number that a number of a session with this extension comes to: what is
/// written out is itself, and a count is taken in the id of the subject.
pub open spec fn integer_value(property: IntegerProperty<HexCount>, subject: Commit) -> Evaluated<
    i64,
> {
    match property {
        IntegerProperty::Literal(n) => Evaluated::Value(n),
        IntegerProperty::OfCommit(_, HexCount::Digits) => Evaluated::Value(
            as_integer(digits_in(hex_of(subject.id@))),
        ),
        IntegerProperty::OfCommit(_, HexCount::Char(c)) => Evaluated::Value(
            as_integer(occurrences_of(hex_of(subject.id@), c)),
        ),
        IntegerProperty::Host(_) => Evaluated::Host,
    }
}

/// The number of a number for its subject.
pub fn eval_integer(property: &IntegerProperty<HexCount>, subject: &Commit) -> (r: Evaluated<i64>)
    ensures
        r == integer_value(*property, *subject),
{
    match property {
        IntegerProperty::Literal(n) => Evaluated::Value(*n),
        IntegerProperty::OfCommit(_, count) => Evaluated::Value(count.eval(subject)),
        IntegerProperty::Host(_) => Evaluated::Host,
    }
}

/// A number that the extension computes of a commit.
pub open spec fn count_property(
    property: CommitProperty<HexCount>,
    count: HexCount,
) -> CommitTemplatePropertyKind<HexCount> {
    CommitTemplatePropertyKind::Core(
        CoreTemplatePropertyKind::Integer(IntegerProperty::OfCommit(property, count)),
    )
}

impl CommitTemplateLanguageExtension for HexCounter {
    type Host = HexCount;

    open spec fn commit_property(&self, property: CommitProperty<HexCount>, name: Seq<char>) -> Option<
        CommitTemplatePropertyKind<HexCount>,
    > {
        if name == "num_digits_in_id"@ {
            Some(count_property(property, HexCount::Digits))
        } else {
            None
        }
    }

    open spec fn commit_function(
        &self,
        property: CommitProperty<HexCount>,
        function: FunctionCallNode,
    ) -> Result<CommitTemplatePropertyKind<HexCount>, ErrorView> {
        if function.name@ == "num_char_in_id"@ {
            if function.args@.len() == 1 && function.args@[0].kind is String {
                let text = function.args@[0].kind->String_0;
                if text@.len() == 1 {
                    Ok(count_property(property, HexCount::Char(text@[0])))
                } else {
                    Err(invalid_arguments_view(function, "Expected single character argument"@))
                }
            } else {
                Err(invalid_arguments_view(function, "Expected singular string argument"@))
            }
        } else {
            Err(no_such_function_view(function))
        }
    }

    fn build_commit_property_opt(&self, property: CommitProperty<HexCount>, name: &str) -> (r:
        Result<CommitTemplatePropertyKind<HexCount>, CommitProperty<HexCount>>) {
        if str_eq(name, "num_digits_in_id") {
            Ok(
                CommitTemplatePropertyKind::Core(
                    CoreTemplatePropertyKind::Integer(
                        IntegerProperty::OfCommit(property, HexCount::Digits),
                    ),
                ),
            )
        } else {
            Err(property)
        }
    }

    fn build_commit_function(
        &self,
        self_property: CommitProperty<HexCount>,
        function: &FunctionCallNode,
    ) -> (r: Result<CommitTemplatePropertyKind<HexCount>, TemplateParseError>) {
        if !str_eq(function.name.as_str(), "num_char_in_id") {
            return Err(TemplateParseError::no_such_function(function));
        }
        if function.args.len() != 1 {
            return Err(
                TemplateParseError::invalid_arguments(function, "Expected singular string argument"),
            );
        }
        match &function.args[0].kind {
            ExpressionKind::String(text) => {
                if text.as_str().unicode_len() != 1 {
                    return Err(
                        TemplateParseError::invalid_arguments(
                            function,
                            "Expected single character argument",
                        ),
                    );
                }
                let ch = text.as_str().get_char(0);
                Ok(
                    CommitTemplatePropertyKind::Core(
                        CoreTemplatePropertyKind::Integer(
                            IntegerProperty::OfCommit(self_property, HexCount::Char(ch)),
                        ),
                    ),
                )
            },
            _ => Err(
                TemplateParseError::invalid_arguments(function, "Expected singular string argument"),
            ),
        }
    }
}

} // verus!
