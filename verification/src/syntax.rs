//! What the resolver sees of a parsed template: calls with their literal
//! arguments, the places they came from, and the errors that resolving reports.

use vstd::prelude::*;

verus! {

/// A stretch of the template text, by the offsets of its first byte and of the
/// byte after its last.
#[derive(Clone, Copy, Debug, PartialEq, Eq)]
pub struct Span {
    pub start: usize,
    pub end: usize,
}

/// An argument as written: a name, a number or a text.
#[derive(Clone, Debug, PartialEq, Eq)]
pub enum ExpressionKind {
    Identifier(String),
    Integer(i64),
    String(String),
}

/// An argument and where it stands.
#[derive(Clone, Debug, PartialEq, Eq)]
pub struct ExpressionNode {
    pub kind: ExpressionKind,
    pub span: Span,
}

/// A call `name(args)`, with the places of the name and of the argument list.
#[derive(Clone, Debug, PartialEq, Eq)]
pub struct FunctionCallNode {
    pub name: String,
    pub name_span: Span,
    pub args: Vec<ExpressionNode>,
    pub args_span: Span,
}

/// Why a template could not be built.
#[derive(Clone, Debug, PartialEq, Eq)]
pub enum TemplateParseErrorKind {
    /// No keyword of this name exists.
    NoSuchKeyword(String),
    /// No function of this name exists.
    NoSuchFunction(String),
    /// Values of this type have no method of this name.
    NoSuchMethod { receiver: String, name: String },
    /// The call has arguments of the wrong number or form; the message says what
    /// was expected.
    InvalidArguments { name: String, message: String },
    /// A value of the expected type was asked for, and the expression has none.
    TypeMismatch { expected: String },
}

/// Why a template could not be built, and where in its text the cause lies.
#[derive(Clone, Debug, PartialEq, Eq)]
pub struct TemplateParseError {
    pub kind: TemplateParseErrorKind,
    pub span: Span,
}

/// What a `TemplateParseErrorKind` holds, as mathematical values.
pub enum ErrorKindView {
    NoSuchKeyword(Seq<char>),
    NoSuchFunction(Seq<char>),
    NoSuchMethod { receiver: Seq<char>, name: Seq<char> },
    InvalidArguments { name: Seq<char>, message: Seq<char> },
    TypeMismatch { expected: Seq<char> },
}

/// What a `TemplateParseError` holds, as mathematical values.
pub struct ErrorView {
    pub kind: ErrorKindView,
    pub span: Span,
}

impl View for TemplateParseErrorKind {
    type V = ErrorKindView;

    open spec fn view(&self) -> ErrorKindView {
        match self {
            TemplateParseErrorKind::NoSuchKeyword(name) => ErrorKindView::NoSuchKeyword(name@),
            TemplateParseErrorKind::NoSuchFunction(name) => ErrorKindView::NoSuchFunction(name@),
            TemplateParseErrorKind::NoSuchMethod { receiver, name } => ErrorKindView::NoSuchMethod {
                receiver: receiver@,
                name: name@,
            },
            TemplateParseErrorKind::InvalidArguments {
                name,
                message,
            } => ErrorKindView::InvalidArguments { name: name@, message: message@ },
            TemplateParseErrorKind::TypeMismatch { expected } => ErrorKindView::TypeMismatch {
                expected: expected@,
            },
        }
    }
}

impl View for TemplateParseError {
    type V = ErrorView;

    open spec fn view(&self) -> ErrorView {
        ErrorView { kind: self.kind@, span: self.span }
    }
}

/// The error for an unknown keyword, placed at the keyword.
pub open spec fn no_such_keyword_view(name: Seq<char>, span: Span) -> ErrorView {
    ErrorView { kind: ErrorKindView::NoSuchKeyword(name), span }
}

/// The error for an unknown function, placed at the name of the call.
pub open spec fn no_such_function_view(function: FunctionCallNode) -> ErrorView {
    ErrorView { kind: ErrorKindView::NoSuchFunction(function.name@), span: function.name_span }
}

/// The error for an unknown method of a type, placed at the name of the call.
pub open spec fn no_such_method_view(receiver: Seq<char>, function: FunctionCallNode) -> ErrorView {
    ErrorView {
        kind: ErrorKindView::NoSuchMethod { receiver, name: function.name@ },
        span: function.name_span,
    }
}

/// The error for unfit arguments, placed at the argument list of the call.
pub open spec fn invalid_arguments_view(function: FunctionCallNode, message: Seq<char>) -> ErrorView {
    ErrorView {
        kind: ErrorKindView::InvalidArguments { name: function.name@, message },
        span: function.args_span,
    }
}

/// The error for an expression that has no value of the expected type, placed
/// at the expression.
pub open spec fn type_mismatch_view(expected: Seq<char>, span: Span) -> ErrorView {
    ErrorView { kind: ErrorKindView::TypeMismatch { expected }, span }
}

impl TemplateParseError {
    pub fn no_such_keyword(name: &str, span: Span) -> (e: TemplateParseError)
        ensures
            e@ == no_such_keyword_view(name@, span),
    {
        TemplateParseError { kind: TemplateParseErrorKind::NoSuchKeyword(name.to_owned()), span }
    }

    pub fn no_such_function(function: &FunctionCallNode) -> (e: TemplateParseError)
        ensures
            e@ == no_such_function_view(*function),
    {
        TemplateParseError {
            kind: TemplateParseErrorKind::NoSuchFunction(function.name.clone()),
            span: function.name_span,
        }
    }

    pub fn no_such_method(receiver: &str, function: &FunctionCallNode) -> (e: TemplateParseError)
        ensures
            e@ == no_such_method_view(receiver@, *function),
    {
        TemplateParseError {
            kind: TemplateParseErrorKind::NoSuchMethod {
                receiver: receiver.to_owned(),
                name: function.name.clone(),
            },
            span: function.name_span,
        }
    }

    pub fn invalid_arguments(function: &FunctionCallNode, message: &str) -> (e: TemplateParseError)
        ensures
            e@ == invalid_arguments_view(*function, message@),
    {
        TemplateParseError {
            kind: TemplateParseErrorKind::InvalidArguments {
                name: function.name.clone(),
                message: message.to_owned(),
            },
            span: function.args_span,
        }
    }

    pub fn type_mismatch(expected: &str, span: Span) -> (e: TemplateParseError)
        ensures
            e@ == type_mismatch_view(expected@, span),
    {
        TemplateParseError {
            kind: TemplateParseErrorKind::TypeMismatch { expected: expected.to_owned() },
            span,
        }
    }
}

/// Accepts a call without arguments and rejects any other.
pub fn expect_no_arguments(function: &FunctionCallNode) -> (r: Result<(), TemplateParseError>)
    ensures
        r is Ok <==> function.args@.len() == 0,
        r matches Err(e) ==> e@ == invalid_arguments_view(*function, "Expected 0 arguments"@),
{
    if function.args.len() == 0 {
        Ok(())
    } else {
        Err(TemplateParseError::invalid_arguments(function, "Expected 0 arguments"))
    }
}

/// Accepts a call with at most one argument, and hands that argument out.
pub fn expect_optional_argument(function: &FunctionCallNode) -> (r: Result<
    Option<&ExpressionNode>,
    TemplateParseError,
>)
    ensures
        function.args@.len() == 0 ==> r == Ok::<Option<&ExpressionNode>, TemplateParseError>(None),
        function.args@.len() == 1 ==> r == Ok::<Option<&ExpressionNode>, TemplateParseError>(
            Some(&function.args@[0]),
        ),
        function.args@.len() > 1 ==> r is Err,
        r matches Err(e) ==> e@ == invalid_arguments_view(*function, "Expected 0 to 1 arguments"@),
{
    if function.args.len() == 0 {
        Ok(None)
    } else if function.args.len() == 1 {
        Ok(Some(&function.args[0]))
    } else {
        Err(TemplateParseError::invalid_arguments(function, "Expected 0 to 1 arguments"))
    }
}

} // verus!
