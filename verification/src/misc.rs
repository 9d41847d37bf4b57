//! The keywords of a pipeline's preamble and the binding of an alias.

use crate::error::{ErrorKind, ThreadError};
use crate::extended_syn::{parens_of, parse_parens};
use crate::parser::{expr_model, expr_prefix, split_expr, ExprModel};
use crate::tokens::{
    ident_text, starts_with_punct, starts_with_word, take_punct, take_word, trees, word,
    word_tree, Tree,
};
use proc_macro2::{Ident, TokenStream};
use syn::Expr;
use vstd::prelude::*;

verus! {

/// The wrappers through which a pipeline can map: `Some` and `Ok`.
#[derive(Clone, Copy, Debug, PartialEq, Eq, Structural)]
pub enum MapType {
    /// The keyword `Some`.
    OfSome,
    /// The keyword `Ok`.
    OfOk,
}

/// The two conditional pipelines.
#[derive(Clone, Copy, Debug, PartialEq, Eq, Structural)]
pub enum CondType {
    /// The keyword `Cond`: the carried value is used as it is given.
    Cond,
    /// The keyword `CondClone`: the carried value is cloned on each use.
    CondClone,
}

/// Where the carried value is put among the arguments of an instruction.
#[derive(Clone, Copy, Debug, PartialEq, Eq, Structural)]
pub enum Placement {
    /// The keyword `first`.
    First,
    /// The keyword `last`.
    Last,
}

/// The keyword that selects how a pipeline is read and lowered.
#[derive(Clone, Copy, Debug, PartialEq, Eq, Structural)]
pub enum Pattern {
    Mapping(MapType),
    Cond(CondType),
}

/// The mapping keyword that `src` starts with.
pub open spec fn map_of(src: Seq<Tree>) -> Option<MapType> {
    if starts_with_word(src, "Some"@) {
        Some(MapType::OfSome)
    } else if starts_with_word(src, "Ok"@) {
        Some(MapType::OfOk)
    } else {
        None
    }
}

/// The condition keyword that `src` starts with.
pub open spec fn cond_of(src: Seq<Tree>) -> Option<CondType> {
    if starts_with_word(src, "Cond"@) {
        Some(CondType::Cond)
    } else if starts_with_word(src, "CondClone"@) {
        Some(CondType::CondClone)
    } else {
        None
    }
}

/// The placement keyword that `src` starts with.
pub open spec fn placement_of(src: Seq<Tree>) -> Option<Placement> {
    if starts_with_word(src, "first"@) {
        Some(Placement::First)
    } else if starts_with_word(src, "last"@) {
        Some(Placement::Last)
    } else {
        None
    }
}

/// The pattern keyword that `src` starts with: a condition keyword, or else a
/// mapping keyword.
pub open spec fn pattern_of(src: Seq<Tree>) -> Option<Pattern> {
    match cond_of(src) {
        Some(cond) => Some(Pattern::Cond(cond)),
        None => match map_of(src) {
            Some(map) => Some(Pattern::Mapping(map)),
            None => None,
        },
    }
}

impl MapType {
    /// The text of this keyword.
    pub open spec fn text(self) -> Seq<char> {
        match self {
            MapType::OfSome => "Some"@,
            MapType::OfOk => "Ok"@,
        }
    }

    /// Takes a mapping keyword from the front of `input`. Where none stands
    /// there, nothing is taken.
    pub fn parse(input: &TokenStream) -> (r: Result<(MapType, TokenStream), ThreadError>)
        ensures
            match r {
                Ok((map, rest)) => map_of(trees(*input)) == Some(map) && trees(rest) == trees(
                    *input,
                ).skip(1),
                Err(error) => map_of(trees(*input)) is None && error.kind()
                    == ErrorKind::ExpectedMapKeyword,
            },
    {
        if let Some(rest) = take_word(input, "Some") {
            return Ok((MapType::OfSome, rest));
        }
        if let Some(rest) = take_word(input, "Ok") {
            return Ok((MapType::OfOk, rest));
        }
        Err(ThreadError::ExpectedMapKeyword)
    }

    /// The keyword as a token.
    pub fn to_tokens(&self) -> (r: TokenStream)
        ensures
            trees(r) == seq![word_tree(self.text())],
    {
        proof {
            reveal_strlit("Some");
            reveal_strlit("Ok");
        }
        match self {
            MapType::OfSome => word("Some"),
            MapType::OfOk => word("Ok"),
        }
    }
}

impl CondType {
    /// The text of this keyword.
    pub open spec fn text(self) -> Seq<char> {
        match self {
            CondType::Cond => "Cond"@,
            CondType::CondClone => "CondClone"@,
        }
    }

    /// Takes a condition keyword from the front of `input`. Where none stands
    /// there, nothing is taken.
    pub fn parse(input: &TokenStream) -> (r: Result<(CondType, TokenStream), ThreadError>)
        ensures
            match r {
                Ok((cond, rest)) => cond_of(trees(*input)) == Some(cond) && trees(rest) == trees(
                    *input,
                ).skip(1),
                Err(error) => cond_of(trees(*input)) is None && error.kind()
                    == ErrorKind::ExpectedCondKeyword,
            },
    {
        if let Some(rest) = take_word(input, "Cond") {
            return Ok((CondType::Cond, rest));
        }
        if let Some(rest) = take_word(input, "CondClone") {
            return Ok((CondType::CondClone, rest));
        }
        Err(ThreadError::ExpectedCondKeyword)
    }

    /// The keyword as a token.
    pub fn to_tokens(&self) -> (r: TokenStream)
        ensures
            trees(r) == seq![word_tree(self.text())],
    {
        proof {
            reveal_strlit("Cond");
            reveal_strlit("CondClone");
        }
        match self {
            CondType::Cond => word("Cond"),
            CondType::CondClone => word("CondClone"),
        }
    }
}

impl Placement {
    /// The text of this keyword.
    pub open spec fn text(self) -> Seq<char> {
        match self {
            Placement::First => "first"@,
            Placement::Last => "last"@,
        }
    }

    /// Takes a placement keyword from the front of `input`. Where none stands
    /// there, nothing is taken.
    pub fn parse(input: &TokenStream) -> (r: Result<(Placement, TokenStream), ThreadError>)
        ensures
            match r {
                Ok((placement, rest)) => placement_of(trees(*input)) == Some(placement) && trees(
                    rest,
                ) == trees(*input).skip(1),
                Err(error) => placement_of(trees(*input)) is None && error.kind()
                    == ErrorKind::ExpectedPlacement,
            },
    {
        if let Some(rest) = take_word(input, "first") {
            return Ok((Placement::First, rest));
        }
        if let Some(rest) = take_word(input, "last") {
            return Ok((Placement::Last, rest));
        }
        Err(ThreadError::ExpectedPlacement)
    }

    /// The keyword as a token.
    pub fn to_tokens(&self) -> (r: TokenStream)
        ensures
            trees(r) == seq![word_tree(self.text())],
    {
        proof {
            reveal_strlit("first");
            reveal_strlit("last");
        }
        match self {
            Placement::First => word("first"),
            Placement::Last => word("last"),
        }
    }
}

impl Default for Placement {
    /// Without a keyword the carried value is put first.
    fn default() -> (r: Placement)
        ensures
            r == Placement::First,
    {
        Placement::First
    }
}

impl Pattern {
    /// The text of this keyword.
    pub open spec fn text(self) -> Seq<char> {
        match self {
            Pattern::Mapping(map) => map.text(),
            Pattern::Cond(cond) => cond.text(),
        }
    }

    /// Takes a pattern keyword from the front of `input`: a condition keyword,
    /// or else a mapping keyword. Where none stands there, nothing is taken.
    pub fn parse(input: &TokenStream) -> (r: Result<(Pattern, TokenStream), ThreadError>)
        ensures
            match r {
                Ok((pattern, rest)) => pattern_of(trees(*input)) == Some(pattern) && trees(rest)
                    == trees(*input).skip(1),
                Err(error) => pattern_of(trees(*input)) is None && error.kind()
                    == ErrorKind::ExpectedMapKeyword,
            },
    {
        match CondType::parse(input) {
            Ok((cond, rest)) => Ok((Pattern::Cond(cond), rest)),
            Err(_) => match MapType::parse(input) {
                Ok((map, rest)) => Ok((Pattern::Mapping(map), rest)),
                Err(error) => Err(error),
            },
        }
    }

    /// The keyword as a token.
    pub fn to_tokens(&self) -> (r: TokenStream)
        ensures
            trees(r) == seq![word_tree(self.text())],
    {
        match self {
            Pattern::Mapping(map) => map.to_tokens(),
            Pattern::Cond(cond) => cond.to_tokens(),
        }
    }
}


/// The binding of an alias: `let alias = value`, or with a pattern keyword
/// `let Pattern(alias) = value`.
pub struct LetAlias {
    /// The pattern keyword behind `let`, if there is one.
    pub pattern: Option<Pattern>,
    /// The alias.
    pub alias: Ident,
    /// The value that the alias is bound to.
    pub value: Expr,
}

/// The model of a [`LetAlias`].
pub struct LetModel {
    pub pattern: Option<Pattern>,
    pub alias: Seq<char>,
    pub value: ExprModel,
}

impl View for LetAlias {
    type V = LetModel;

    open spec fn view(&self) -> LetModel {
        LetModel {
            pattern: self.pattern,
            alias: ident_text(self.alias),
            value: expr_model(self.value),
        }
    }
}

/// The tokens behind an optional pattern keyword at the front of `src`.
pub open spec fn after_pattern(src: Seq<Tree>) -> Seq<Tree> {
    if pattern_of(src) is Some {
        src.skip(1)
    } else {
        src
    }
}

/// What [`LetAlias::parse`] makes of `src`: the binding and the tokens behind
/// it. After `let` an optional pattern keyword, then the alias, which stands
/// in parentheses where a pattern keyword came before it, then `=` and the
/// value.
pub open spec fn let_alias_of(src: Seq<Tree>) -> Result<(LetModel, Seq<Tree>), ErrorKind> {
    if !starts_with_word(src, "let"@) {
        Err(ErrorKind::ExpectedLet)
    } else {
        let pattern = pattern_of(src.skip(1));
        match parens_of(after_pattern(src.skip(1)), pattern is Some) {
            None => Err(ErrorKind::ExpectedAlias),
            Some((alias, behind)) => if !starts_with_punct(behind, '=') {
                Err(ErrorKind::ExpectedAssign)
            } else {
                match expr_prefix(behind.skip(1)) {
                    None => Err(ErrorKind::Expression),
                    Some((value, rest)) => Ok((LetModel { pattern, alias, value }, rest)),
                }
            },
        }
    }
}

impl LetAlias {
    /// Reads the binding of an alias from the front of `input`, and returns
    /// it with the tokens that follow it.
    pub fn parse(input: &TokenStream) -> (r: Result<(LetAlias, TokenStream), ThreadError>)
        ensures
            match r {
                Ok((binding, rest)) => let_alias_of(trees(*input)) == Ok::<
                    (LetModel, Seq<Tree>),
                    ErrorKind,
                >((binding@, trees(rest))),
                Err(error) => let_alias_of(trees(*input)) == Err::<
                    (LetModel, Seq<Tree>),
                    ErrorKind,
                >(error.kind()),
            },
    {
        let behind_let = match take_word(input, "let") {
            Some(rest) => rest,
            None => { return Err(ThreadError::ExpectedLet); },
        };
        let (pattern, behind_pattern) = match Pattern::parse(&behind_let) {
            Ok((pattern, rest)) => (Some(pattern), rest),
            Err(_) => (None, behind_let),
        };
        let (alias, behind_alias) = match parse_parens(&behind_pattern, pattern.is_some()) {
            Ok(found) => found,
            Err(error) => { return Err(error); },
        };
        let behind_assign = match take_punct(&behind_alias, '=') {
            Some((_, rest)) => rest,
            None => { return Err(ThreadError::ExpectedAssign); },
        };
        match split_expr(&behind_assign) {
            Ok((value, rest)) => Ok((LetAlias { pattern, alias, value }, rest)),
            Err(error) => Err(ThreadError::Expression(error)),
        }
    }
}

} // verus!
