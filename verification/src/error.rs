//! What can go wrong while a pipeline is read.

use crate::parser::parser_message;
use vstd::prelude::*;

verus! {

/// Why a pipeline was refused.
#[derive(Debug)]
pub enum ThreadError {
    /// Neither `Some` nor `Ok` stands where a mapping keyword is asked for.
    ExpectedMapKeyword,
    /// Neither `Cond` nor `CondClone` stands where a condition keyword is
    /// asked for.
    ExpectedCondKeyword,
    /// Neither `first` nor `last` stands where a placement is asked for.
    ExpectedPlacement,
    /// The keyword `let` does not start the binding of an alias.
    ExpectedLet,
    /// The keyword `in` does not follow the preamble.
    ExpectedIn,
    /// `=` does not follow the alias of a `let` preamble.
    ExpectedAssign,
    /// No usable alias follows `let`: an identifier, in parentheses where a
    /// pattern keyword stands before it.
    ExpectedAlias,
    /// An instruction is followed by something other than `,`.
    ExpectedComma,
    /// The condition of a conditional instruction is not followed by `=>`.
    ExpectedArrow,
    /// No instruction follows `in`.
    EmptyPipe,
    /// More instructions than a list can hold.
    TooManyInstructions,
    /// A method reference without generic arguments after the method's name.
    MissingTurbofish,
    /// The expression parser refused the tokens; its error is kept as it is.
    Expression(syn::Error),
    /// The expression parser returned a kind of expression that the
    /// classification of expressions does not know.
    UnknownExpression,
}

/// A [`ThreadError`] without what it carries.
#[derive(Clone, Copy, Debug, PartialEq, Eq, Structural)]
pub enum ErrorKind {
    ExpectedMapKeyword,
    ExpectedCondKeyword,
    ExpectedPlacement,
    ExpectedLet,
    ExpectedIn,
    ExpectedAssign,
    ExpectedAlias,
    ExpectedComma,
    ExpectedArrow,
    EmptyPipe,
    TooManyInstructions,
    MissingTurbofish,
    Expression,
    UnknownExpression,
}

impl ThreadError {
    /// The kind of this error.
    pub open spec fn spec_kind(&self) -> ErrorKind {
        match *self {
            ThreadError::ExpectedMapKeyword => ErrorKind::ExpectedMapKeyword,
            ThreadError::ExpectedCondKeyword => ErrorKind::ExpectedCondKeyword,
            ThreadError::ExpectedPlacement => ErrorKind::ExpectedPlacement,
            ThreadError::ExpectedLet => ErrorKind::ExpectedLet,
            ThreadError::ExpectedIn => ErrorKind::ExpectedIn,
            ThreadError::ExpectedAssign => ErrorKind::ExpectedAssign,
            ThreadError::ExpectedAlias => ErrorKind::ExpectedAlias,
            ThreadError::ExpectedComma => ErrorKind::ExpectedComma,
            ThreadError::ExpectedArrow => ErrorKind::ExpectedArrow,
            ThreadError::EmptyPipe => ErrorKind::EmptyPipe,
            ThreadError::TooManyInstructions => ErrorKind::TooManyInstructions,
            ThreadError::MissingTurbofish => ErrorKind::MissingTurbofish,
            ThreadError::Expression(_) => ErrorKind::Expression,
            ThreadError::UnknownExpression => ErrorKind::UnknownExpression,
        }
    }

    /// The kind of this error.
    #[verifier::when_used_as_spec(spec_kind)]
    pub fn kind(&self) -> (k: ErrorKind)
        ensures
            k == self.spec_kind(),
    {
        match self {
            ThreadError::ExpectedMapKeyword => ErrorKind::ExpectedMapKeyword,
            ThreadError::ExpectedCondKeyword => ErrorKind::ExpectedCondKeyword,
            ThreadError::ExpectedPlacement => ErrorKind::ExpectedPlacement,
            ThreadError::ExpectedLet => ErrorKind::ExpectedLet,
            ThreadError::ExpectedIn => ErrorKind::ExpectedIn,
            ThreadError::ExpectedAssign => ErrorKind::ExpectedAssign,
            ThreadError::ExpectedAlias => ErrorKind::ExpectedAlias,
            ThreadError::ExpectedComma => ErrorKind::ExpectedComma,
            ThreadError::ExpectedArrow => ErrorKind::ExpectedArrow,
            ThreadError::EmptyPipe => ErrorKind::EmptyPipe,
            ThreadError::TooManyInstructions => ErrorKind::TooManyInstructions,
            ThreadError::MissingTurbofish => ErrorKind::MissingTurbofish,
            ThreadError::Expression(_) => ErrorKind::Expression,
            ThreadError::UnknownExpression => ErrorKind::UnknownExpression,
        }
    }

    /// The message of this error. An error of the expression parser speaks
    /// for itself; of the others each has a fixed text.
    pub fn message(&self) -> (text: String)
        ensures
            self.kind() != ErrorKind::Expression ==> text@ == fixed_message(self.kind()),
    {
        match self {
            ThreadError::ExpectedMapKeyword => "expected `Some` or `Ok`".to_owned(),
            ThreadError::ExpectedCondKeyword => "expected `Cond` or `CondClone`".to_owned(),
            ThreadError::ExpectedPlacement => "expected `first` or `last`".to_owned(),
            ThreadError::ExpectedLet => "expected `let`".to_owned(),
            ThreadError::ExpectedIn => "expected `in`".to_owned(),
            ThreadError::ExpectedAssign => "expected `=`".to_owned(),
            ThreadError::ExpectedAlias => "expected identifier".to_owned(),
            ThreadError::ExpectedComma => "expected `,`".to_owned(),
            ThreadError::ExpectedArrow => "expected `=>`".to_owned(),
            ThreadError::EmptyPipe => "expected some functions as pipe".to_owned(),
            ThreadError::TooManyInstructions => "too many functions as pipe".to_owned(),
            ThreadError::MissingTurbofish => "expected `::<...>` after method name".to_owned(),
            ThreadError::Expression(error) => parser_message(error),
            ThreadError::UnknownExpression => "unknown new syntax for an expression".to_owned(),
        }
    }
}

/// The text that stands for each kind of error but that of the expression
/// parser, which brings its own.
pub open spec fn fixed_message(kind: ErrorKind) -> Seq<char> {
    match kind {
        ErrorKind::ExpectedMapKeyword => "expected `Some` or `Ok`"@,
        ErrorKind::ExpectedCondKeyword => "expected `Cond` or `CondClone`"@,
        ErrorKind::ExpectedPlacement => "expected `first` or `last`"@,
        ErrorKind::ExpectedLet => "expected `let`"@,
        ErrorKind::ExpectedIn => "expected `in`"@,
        ErrorKind::ExpectedAssign => "expected `=`"@,
        ErrorKind::ExpectedAlias => "expected identifier"@,
        ErrorKind::ExpectedComma => "expected `,`"@,
        ErrorKind::ExpectedArrow => "expected `=>`"@,
        ErrorKind::EmptyPipe => "expected some functions as pipe"@,
        ErrorKind::TooManyInstructions => "too many functions as pipe"@,
        ErrorKind::MissingTurbofish => "expected `::<...>` after method name"@,
        ErrorKind::Expression => Seq::<char>::empty(),
        ErrorKind::UnknownExpression => "unknown new syntax for an expression"@,
    }
}

} // verus!
